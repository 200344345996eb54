use redox_posix::abi::{
    Error, NativeStat, NativeTimeSpec, SockAddr, Stat, TimeSpec, AF_INET, EAFNOSUPPORT, EINTR,
    EINVAL,
    EISCONN, EOPNOTSUPP, EPROTO, EPROTONOSUPPORT, EPROTOTYPE, MODE_FIFO, O_CLOEXEC, O_CREAT,
    O_DIRECTORY, O_EXCL, O_NOFOLLOW, O_NONBLOCK, O_RDONLY, O_RDWR, O_WRONLY, SOCK_CLOEXEC,
    SOCK_DGRAM, SOCK_NONBLOCK, SOCK_STREAM,
};
use redox_posix::errno::e;
use redox_posix::native::{Native, Sys};
use std::collections::VecDeque;

/// A native call as the fake kernel saw it: its name, its integer arguments
/// in order, and its byte-string arguments in order. A buffer that the
/// kernel is to fill counts as an integer argument, its length.
#[derive(Clone, Debug, PartialEq, Eq)]
struct Seen {
    name: &'static str,
    words: Vec<i128>,
    texts: Vec<Vec<u8>>,
}

fn seen(name: &'static str, words: &[i128], texts: &[&[u8]]) -> Seen {
    Seen { name, words: words.to_vec(), texts: texts.iter().map(|t| t.to_vec()).collect() }
}

/// What the fake kernel answers to one call.
#[derive(Clone, Debug)]
struct Answer {
    result: Result<usize, Error>,
    bytes: Vec<u8>,
    stat: Option<NativeStat>,
    time: Option<NativeTimeSpec>,
    word: Option<usize>,
    pair: Option<(usize, usize)>,
}

fn ok(value: usize) -> Answer {
    Answer { result: Ok(value), bytes: Vec::new(), stat: None, time: None, word: None, pair: None }
}

fn fails(errno: i32) -> Answer {
    Answer {
        result: Err(Error { errno }),
        bytes: Vec::new(),
        stat: None,
        time: None,
        word: None,
        pair: None,
    }
}

fn text(bytes: &[u8]) -> Answer {
    Answer { bytes: bytes.to_vec(), ..ok(bytes.len()) }
}

/// A kernel that records every call and answers from a script; once the
/// script is used up it answers `Ok(0)` and writes nothing.
struct Fake {
    seen: Vec<Seen>,
    script: VecDeque<Answer>,
}

impl Fake {
    fn answer(&mut self, call: Seen) -> Answer {
        self.seen.push(call);
        self.script.pop_front().unwrap_or_else(|| ok(0))
    }
}

fn fresh(script: Vec<Answer>) -> Sys<Fake> {
    Sys::new(Fake { seen: Vec::new(), script: script.into_iter().collect() })
}

impl Native for Fake {
    fn brk(&mut self, addr: usize) -> Result<usize, Error> {
        let answer = self.answer(seen("brk", &[addr as i128], &[]));
        answer.result
    }

    fn chdir(&mut self, path: &[u8]) -> Result<usize, Error> {
        let answer = self.answer(seen("chdir", &[], &[path]));
        answer.result
    }

    fn clone(&mut self, flags: usize) -> Result<usize, Error> {
        let answer = self.answer(seen("clone", &[flags as i128], &[]));
        answer.result
    }

    fn close(&mut self, fd: usize) -> Result<usize, Error> {
        let answer = self.answer(seen("close", &[fd as i128], &[]));
        answer.result
    }

    fn clock_gettime(&mut self, clock: usize, tp: &mut NativeTimeSpec) -> Result<usize, Error> {
        let answer = self.answer(seen("clock_gettime", &[clock as i128, tp.tv_sec as i128, tp.tv_nsec as i128], &[]));
        if let Some(written) = answer.time {
            *tp = written;
        }
        answer.result
    }

    fn dup(&mut self, fd: usize, param: &[u8]) -> Result<usize, Error> {
        let answer = self.answer(seen("dup", &[fd as i128], &[param]));
        answer.result
    }

    fn dup2(&mut self, fd: usize, new_fd: usize, param: &[u8]) -> Result<usize, Error> {
        let answer = self.answer(seen("dup2", &[fd as i128, new_fd as i128], &[param]));
        answer.result
    }

    fn execve(&mut self, path: &[u8], args: &[Vec<u8>]) -> Result<usize, Error> {
        let mut texts: Vec<Vec<u8>> = vec![path.to_vec()];
        texts.extend(args.iter().cloned());
        let answer = self.answer(Seen { name: "execve", words: vec![], texts });
        answer.result
    }

    fn exit(&mut self, status: usize) -> Result<usize, Error> {
        let answer = self.answer(seen("exit", &[status as i128], &[]));
        answer.result
    }

    fn fchmod(&mut self, fd: usize, mode: u16) -> Result<usize, Error> {
        let answer = self.answer(seen("fchmod", &[fd as i128, mode as i128], &[]));
        answer.result
    }

    fn fchown(&mut self, fd: usize, uid: u32, gid: u32) -> Result<usize, Error> {
        let answer = self.answer(seen("fchown", &[fd as i128, uid as i128, gid as i128], &[]));
        answer.result
    }

    fn fcntl(&mut self, fd: usize, cmd: usize, arg: usize) -> Result<usize, Error> {
        let answer = self.answer(seen("fcntl", &[fd as i128, cmd as i128, arg as i128], &[]));
        answer.result
    }

    fn fpath(&mut self, fd: usize, buf: &mut [u8]) -> Result<usize, Error> {
        let answer = self.answer(seen("fpath", &[fd as i128, buf.len() as i128], &[]));
        let n = answer.bytes.len().min(buf.len());
        buf[..n].copy_from_slice(&answer.bytes[..n]);
        answer.result
    }

    fn frename(&mut self, fd: usize, path: &[u8]) -> Result<usize, Error> {
        let answer = self.answer(seen("frename", &[fd as i128], &[path]));
        answer.result
    }

    fn fstat(&mut self, fd: usize, stat: &mut NativeStat) -> Result<usize, Error> {
        let answer = self.answer(seen("fstat", &[fd as i128], &[]));
        if let Some(written) = answer.stat {
            *stat = written;
        }
        answer.result
    }

    fn fsync(&mut self, fd: usize) -> Result<usize, Error> {
        let answer = self.answer(seen("fsync", &[fd as i128], &[]));
        answer.result
    }

    fn ftruncate(&mut self, fd: usize, len: usize) -> Result<usize, Error> {
        let answer = self.answer(seen("ftruncate", &[fd as i128, len as i128], &[]));
        answer.result
    }

    fn getcwd(&mut self, buf: &mut [u8]) -> Result<usize, Error> {
        let answer = self.answer(seen("getcwd", &[buf.len() as i128], &[]));
        let n = answer.bytes.len().min(buf.len());
        buf[..n].copy_from_slice(&answer.bytes[..n]);
        answer.result
    }

    fn getegid(&mut self) -> Result<usize, Error> {
        let answer = self.answer(seen("getegid", &[], &[]));
        answer.result
    }

    fn geteuid(&mut self) -> Result<usize, Error> {
        let answer = self.answer(seen("geteuid", &[], &[]));
        answer.result
    }

    fn getgid(&mut self) -> Result<usize, Error> {
        let answer = self.answer(seen("getgid", &[], &[]));
        answer.result
    }

    fn getpgid(&mut self, pid: usize) -> Result<usize, Error> {
        let answer = self.answer(seen("getpgid", &[pid as i128], &[]));
        answer.result
    }

    fn getpid(&mut self) -> Result<usize, Error> {
        let answer = self.answer(seen("getpid", &[], &[]));
        answer.result
    }

    fn getppid(&mut self) -> Result<usize, Error> {
        let answer = self.answer(seen("getppid", &[], &[]));
        answer.result
    }

    fn getuid(&mut self) -> Result<usize, Error> {
        let answer = self.answer(seen("getuid", &[], &[]));
        answer.result
    }

    fn kill(&mut self, pid: usize, sig: usize) -> Result<usize, Error> {
        let answer = self.answer(seen("kill", &[pid as i128, sig as i128], &[]));
        answer.result
    }

    fn link(&mut self, old_path: &[u8], new_path: &[u8]) -> Result<usize, Error> {
        let answer = self.answer(seen("link", &[], &[old_path, new_path]));
        answer.result
    }

    fn lseek(&mut self, fd: usize, offset: isize, whence: usize) -> Result<usize, Error> {
        let answer = self.answer(seen("lseek", &[fd as i128, offset as i128, whence as i128], &[]));
        answer.result
    }

    fn nanosleep(&mut self, req: &NativeTimeSpec, rem: &mut NativeTimeSpec) -> Result<usize, Error> {
        let answer = self.answer(seen("nanosleep", &[req.tv_sec as i128, req.tv_nsec as i128, rem.tv_sec as i128, rem.tv_nsec as i128], &[]));
        if let Some(written) = answer.time {
            *rem = written;
        }
        answer.result
    }

    fn open(&mut self, path: &[u8], flags: usize) -> Result<usize, Error> {
        let answer = self.answer(seen("open", &[flags as i128], &[path]));
        answer.result
    }

    fn pipe2(&mut self, fds: &mut [usize; 2], flags: usize) -> Result<usize, Error> {
        let answer = self.answer(seen("pipe2", &[fds[0] as i128, fds[1] as i128, flags as i128], &[]));
        if let Some((first, second)) = answer.pair {
            fds[0] = first;
            fds[1] = second;
        }
        answer.result
    }

    fn read(&mut self, fd: usize, buf: &mut [u8]) -> Result<usize, Error> {
        let answer = self.answer(seen("read", &[fd as i128, buf.len() as i128], &[]));
        let n = answer.bytes.len().min(buf.len());
        buf[..n].copy_from_slice(&answer.bytes[..n]);
        answer.result
    }

    fn rmdir(&mut self, path: &[u8]) -> Result<usize, Error> {
        let answer = self.answer(seen("rmdir", &[], &[path]));
        answer.result
    }

    fn setpgid(&mut self, pid: usize, pgid: usize) -> Result<usize, Error> {
        let answer = self.answer(seen("setpgid", &[pid as i128, pgid as i128], &[]));
        answer.result
    }

    fn setregid(&mut self, rgid: usize, egid: usize) -> Result<usize, Error> {
        let answer = self.answer(seen("setregid", &[rgid as i128, egid as i128], &[]));
        answer.result
    }

    fn setreuid(&mut self, ruid: usize, euid: usize) -> Result<usize, Error> {
        let answer = self.answer(seen("setreuid", &[ruid as i128, euid as i128], &[]));
        answer.result
    }

    fn unlink(&mut self, path: &[u8]) -> Result<usize, Error> {
        let answer = self.answer(seen("unlink", &[], &[path]));
        answer.result
    }

    fn waitpid(&mut self, pid: usize, status: &mut usize, options: usize) -> Result<usize, Error> {
        let answer = self.answer(seen("waitpid", &[pid as i128, *status as i128, options as i128], &[]));
        if let Some(written) = answer.word {
            *status = written;
        }
        answer.result
    }

    fn write(&mut self, fd: usize, buf: &[u8]) -> Result<usize, Error> {
        let answer = self.answer(seen("write", &[fd as i128], &[buf]));
        answer.result
    }
}

fn inet(address: [u8; 4], port: u16) -> SockAddr {
    let mut data = [0u8; 14];
    data[0] = (port >> 8) as u8;
    data[1] = (port & 0xff) as u8;
    data[2..6].copy_from_slice(&address);
    SockAddr { sa_family: AF_INET as u16, data }
}

fn blank() -> SockAddr {
    SockAddr { sa_family: 0, data: [0xee; 14] }
}

fn no_stat() -> Stat {
    Stat {
        st_dev: 9,
        st_ino: 9,
        st_nlink: 9,
        st_mode: 9,
        st_uid: 9,
        st_gid: 9,
        st_rdev: 9,
        st_size: 9,
        st_blksize: 9,
        st_atim: 9,
        st_mtim: 9,
        st_ctim: 9,
    }
}

fn some_native_stat() -> NativeStat {
    NativeStat {
        st_dev: 1,
        st_ino: 2,
        st_mode: 0o100644,
        st_nlink: 3,
        st_uid: 1000,
        st_gid: 1001,
        st_size: 4096,
        st_blksize: 512,
        st_blocks: 8,
        st_mtime: 20,
        st_mtime_nsec: 21,
        st_atime: 10,
        st_atime_nsec: 11,
        st_ctime: 30,
        st_ctime_nsec: 31,
    }
}

#[test]
fn conversion_passes_success_and_keeps_errno() {
    let mut sys = fresh(vec![]);
    sys.set_errno(5);
    assert_eq!(e(&mut sys, Ok(42)), 42);
    assert_eq!(sys.get_errno(), 5);
    assert!(sys.kernel().seen.is_empty());
}

#[test]
fn conversion_reports_failure_as_all_ones_and_errno() {
    let mut sys = fresh(vec![]);
    assert_eq!(e(&mut sys, Err(Error { errno: 13 })), usize::MAX);
    assert_eq!(sys.get_errno(), 13);
    assert_eq!(usize::MAX as i32, -1);
    assert_eq!(usize::MAX as isize, -1);
}

#[test]
fn socket_of_other_family_asks_nothing() {
    for domain in [0, 1, 3, 10, -1] {
        let mut sys = fresh(vec![]);
        assert_eq!(redox_posix::socket::socket(&mut sys, domain, SOCK_STREAM, 0), -1);
        assert_eq!(sys.get_errno(), EAFNOSUPPORT);
        assert!(sys.kernel().seen.is_empty());
    }
}

#[test]
fn bind_and_connect_of_other_family_ask_nothing() {
    let mut address = inet([192, 0, 2, 1], 80);
    address.sa_family = 10;
    let mut sys = fresh(vec![]);
    assert_eq!(redox_posix::socket::bind(&mut sys, 3, &address, 16), -1);
    assert_eq!(sys.get_errno(), EAFNOSUPPORT);
    assert!(sys.kernel().seen.is_empty());
    let mut sys = fresh(vec![]);
    assert_eq!(redox_posix::socket::connect(&mut sys, 3, &address, 16), -1);
    assert_eq!(sys.get_errno(), EAFNOSUPPORT);
    assert!(sys.kernel().seen.is_empty());
}

#[test]
fn family_is_checked_before_length_and_protocol() {
    let mut address = inet([192, 0, 2, 1], 80);
    address.sa_family = 1;
    let mut sys = fresh(vec![]);
    assert_eq!(redox_posix::socket::connect(&mut sys, 3, &address, 0), -1);
    assert_eq!(sys.get_errno(), EAFNOSUPPORT);
    let mut sys = fresh(vec![]);
    assert_eq!(redox_posix::socket::socket(&mut sys, 1, 77, 6), -1);
    assert_eq!(sys.get_errno(), EAFNOSUPPORT);
}

#[test]
fn connect_dials_the_endpoint_text() {
    let mut sys = fresh(vec![ok(7), ok(3), ok(0)]);
    let address = inet([192, 0, 2, 1], 80);
    assert_eq!(redox_posix::socket::connect(&mut sys, 3, &address, 16), 0);
    assert_eq!(
        sys.kernel().seen,
        vec![
            seen("dup", &[3], &[b"192.0.2.1:80"]),
            seen("dup2", &[7, 3], &[b""]),
            seen("close", &[7], &[]),
        ]
    );
    assert_eq!(sys.get_errno(), 0);
}

#[test]
fn bind_listens_on_the_endpoint_text() {
    let mut sys = fresh(vec![ok(7), ok(3), ok(0)]);
    let address = inet([192, 0, 2, 1], 80);
    assert_eq!(redox_posix::socket::bind(&mut sys, 3, &address, 16), 0);
    assert_eq!(
        sys.kernel().seen,
        vec![
            seen("dup", &[3], &[b"/192.0.2.1:80"]),
            seen("dup2", &[7, 3], &[b""]),
            seen("close", &[7], &[]),
        ]
    );
}

#[test]
fn endpoint_text_has_no_leading_zeros_and_full_range() {
    let zero = inet([0, 0, 0, 0], 0);
    assert_eq!(redox_posix::text::dial_parameter(false, &zero.data), b"0.0.0.0:0".to_vec());
    let top = inet([255, 255, 255, 255], 65535);
    assert_eq!(
        redox_posix::text::dial_parameter(true, &top.data),
        b"/255.255.255.255:65535".to_vec()
    );
    let mixed = inet([10, 200, 7, 100], 8080);
    assert_eq!(redox_posix::text::dial_parameter(false, &mixed.data), b"10.200.7.100:8080".to_vec());
}

#[test]
fn port_is_read_in_network_byte_order() {
    let mut address = inet([127, 0, 0, 1], 0);
    address.data[0] = 0x1f;
    address.data[1] = 0x90;
    assert_eq!(redox_posix::text::dial_parameter(false, &address.data), b"127.0.0.1:8080".to_vec());
    address.data[0] = 0x00;
    address.data[1] = 0x50;
    assert_eq!(redox_posix::text::dial_parameter(false, &address.data), b"127.0.0.1:80".to_vec());
    address.data[0] = 0x50;
    address.data[1] = 0x00;
    assert_eq!(redox_posix::text::dial_parameter(false, &address.data), b"127.0.0.1:20480".to_vec());
}

#[test]
fn decimal_text_of_numbers() {
    let mut out = b"x".to_vec();
    redox_posix::text::push_decimal(&mut out, 0);
    redox_posix::text::push_decimal(&mut out, 9);
    redox_posix::text::push_decimal(&mut out, 10);
    redox_posix::text::push_decimal(&mut out, 1234567890123);
    assert_eq!(out, b"x09101234567890123".to_vec());
    let mut out = Vec::new();
    redox_posix::text::push_signed(&mut out, -1);
    redox_posix::text::push_signed(&mut out, 0);
    redox_posix::text::push_signed(&mut out, i64::MIN);
    redox_posix::text::push_signed(&mut out, i64::MAX);
    assert_eq!(out, b"-10-92233720368547758089223372036854775807".to_vec());
}

#[test]
fn short_address_is_invalid() {
    let address = inet([192, 0, 2, 1], 80);
    for len in [0, 1, 15] {
        let mut sys = fresh(vec![]);
        assert_eq!(redox_posix::socket::connect(&mut sys, 3, &address, len), -1);
        assert_eq!(sys.get_errno(), EINVAL);
        assert!(sys.kernel().seen.is_empty());
        let mut sys = fresh(vec![]);
        assert_eq!(redox_posix::socket::bind(&mut sys, 3, &address, len), -1);
        assert_eq!(sys.get_errno(), EINVAL);
        assert!(sys.kernel().seen.is_empty());
    }
    let mut sys = fresh(vec![ok(7)]);
    assert_eq!(redox_posix::socket::connect(&mut sys, 3, &address, 200), 0);
    assert_eq!(sys.kernel().seen.len(), 3);
}

#[test]
fn failed_dial_stops_after_the_first_call() {
    let mut sys = fresh(vec![fails(111)]);
    let address = inet([192, 0, 2, 1], 80);
    assert_eq!(redox_posix::socket::connect(&mut sys, 3, &address, 16), -1);
    assert_eq!(sys.get_errno(), 111);
    assert_eq!(sys.kernel().seen, vec![seen("dup", &[3], &[b"192.0.2.1:80"])]);
}

#[test]
fn failed_second_duplication_still_closes_the_first() {
    let mut sys = fresh(vec![ok(7), fails(9), fails(5)]);
    let address = inet([192, 0, 2, 1], 80);
    assert_eq!(redox_posix::socket::bind(&mut sys, 3, &address, 16), -1);
    assert_eq!(sys.get_errno(), 9);
    assert_eq!(
        sys.kernel().seen,
        vec![
            seen("dup", &[3], &[b"/192.0.2.1:80"]),
            seen("dup2", &[7, 3], &[b""]),
            seen("close", &[7], &[]),
        ]
    );
}

#[test]
fn failed_closing_after_a_dial_goes_unreported() {
    let mut sys = fresh(vec![ok(7), ok(3), fails(5)]);
    let address = inet([192, 0, 2, 1], 80);
    assert_eq!(redox_posix::socket::connect(&mut sys, 3, &address, 16), 0);
    assert_eq!(sys.get_errno(), 0);
}

#[test]
fn accept_without_address_looks_nothing_up() {
    let mut sys = fresh(vec![ok(9)]);
    assert_eq!(redox_posix::socket::accept(&mut sys, 4, None, None), 9);
    assert_eq!(sys.kernel().seen, vec![seen("dup", &[4], &[b"listen"])]);
    let mut address = blank();
    let mut sys = fresh(vec![ok(9)]);
    assert_eq!(redox_posix::socket::accept(&mut sys, 4, Some(&mut address), None), 9);
    assert_eq!(sys.kernel().seen, vec![seen("dup", &[4], &[b"listen"])]);
    assert_eq!(address, blank());
    let mut len = 77;
    let mut sys = fresh(vec![ok(9)]);
    assert_eq!(redox_posix::socket::accept(&mut sys, 4, None, Some(&mut len)), 9);
    assert_eq!(sys.kernel().seen, vec![seen("dup", &[4], &[b"listen"])]);
    assert_eq!(len, 77);
}

#[test]
fn accept_with_address_looks_the_peer_up_once() {
    let mut sys = fresh(vec![ok(9), text(b"tcp:10.0.0.1:5/10.0.0.2:80")]);
    let mut address = blank();
    let mut len = 16;
    assert_eq!(redox_posix::socket::accept(&mut sys, 4, Some(&mut address), Some(&mut len)), 9);
    assert_eq!(
        sys.kernel().seen,
        vec![seen("dup", &[4], &[b"listen"]), seen("fpath", &[9, 32], &[])]
    );
    assert_eq!(len, 10);
    assert_eq!(&address.data[..10], b"10.0.0.1:5");
    assert_eq!(&address.data[10..], &[0xee; 4]);
    assert_eq!(address.sa_family, 0);
}

#[test]
fn accept_fails_when_the_lookup_fails_and_leaves_the_stream_open() {
    let mut sys = fresh(vec![ok(9), fails(9)]);
    let mut address = blank();
    let mut len = 16;
    assert_eq!(redox_posix::socket::accept(&mut sys, 4, Some(&mut address), Some(&mut len)), -1);
    assert_eq!(sys.get_errno(), 9);
    assert_eq!(sys.kernel().seen.len(), 2);
    assert_eq!(address, blank());
    assert_eq!(len, 16);
}

#[test]
fn accept_fails_when_the_duplication_fails() {
    let mut sys = fresh(vec![fails(11)]);
    let mut address = blank();
    let mut len = 16;
    assert_eq!(redox_posix::socket::accept(&mut sys, 4, Some(&mut address), Some(&mut len)), -1);
    assert_eq!(sys.get_errno(), 11);
    assert_eq!(sys.kernel().seen, vec![seen("dup", &[4], &[b"listen"])]);
}

#[test]
fn socket_then_close_opens_and_closes_once() {
    let mut sys = fresh(vec![ok(5), ok(0)]);
    let fd = redox_posix::socket::socket(&mut sys, AF_INET, SOCK_STREAM, 0);
    assert_eq!(fd, 5);
    assert_eq!(redox_posix::file::close(&mut sys, fd), 0);
    assert_eq!(
        sys.kernel().seen,
        vec![seen("open", &[O_RDWR as i128], &[b"tcp:"]), seen("close", &[5], &[])]
    );
    assert_eq!(sys.get_errno(), 0);
}

#[test]
fn socket_maps_type_and_flag_bits() {
    let mut sys = fresh(vec![ok(5)]);
    assert_eq!(redox_posix::socket::socket(&mut sys, AF_INET, SOCK_DGRAM, 0), 5);
    assert_eq!(sys.kernel().seen, vec![seen("open", &[0x0003_0000], &[b"udp:"])]);
    let mut sys = fresh(vec![ok(5)]);
    assert_eq!(redox_posix::socket::socket(&mut sys, AF_INET, SOCK_STREAM | SOCK_NONBLOCK, 0), 5);
    assert_eq!(sys.kernel().seen, vec![seen("open", &[0x0007_0000], &[b"tcp:"])]);
    let mut sys = fresh(vec![ok(5)]);
    assert_eq!(redox_posix::socket::socket(&mut sys, AF_INET, SOCK_STREAM | SOCK_CLOEXEC, 0), 5);
    assert_eq!(sys.kernel().seen, vec![seen("open", &[0x0103_0000], &[b"tcp:"])]);
    let mut sys = fresh(vec![ok(5)]);
    let both = SOCK_DGRAM | SOCK_NONBLOCK | SOCK_CLOEXEC;
    assert_eq!(redox_posix::socket::socket(&mut sys, AF_INET, both, 0), 5);
    assert_eq!(sys.kernel().seen, vec![seen("open", &[0x0107_0000], &[b"udp:"])]);
    assert_eq!(O_RDWR | O_NONBLOCK | O_CLOEXEC, 0x0107_0000);
}

#[test]
fn socket_refuses_protocol_and_type() {
    let mut sys = fresh(vec![]);
    assert_eq!(redox_posix::socket::socket(&mut sys, AF_INET, SOCK_STREAM, 6), -1);
    assert_eq!(sys.get_errno(), EPROTONOSUPPORT);
    assert!(sys.kernel().seen.is_empty());
    for kind in [0, 3, 5, SOCK_NONBLOCK, SOCK_CLOEXEC, -1] {
        let mut sys = fresh(vec![]);
        assert_eq!(redox_posix::socket::socket(&mut sys, AF_INET, kind, 0), -1);
        assert_eq!(sys.get_errno(), EPROTOTYPE);
        assert!(sys.kernel().seen.is_empty());
    }
}

#[test]
fn socket_reports_the_failure_of_the_opening() {
    let mut sys = fresh(vec![fails(2)]);
    assert_eq!(redox_posix::socket::socket(&mut sys, AF_INET, SOCK_STREAM, 0), -1);
    assert_eq!(sys.get_errno(), 2);
}

#[test]
fn listen_does_nothing() {
    let mut sys = fresh(vec![]);
    sys.set_errno(4);
    assert_eq!(redox_posix::socket::listen(&mut sys, 3, 128), 0);
    assert_eq!(sys.get_errno(), 4);
    assert!(sys.kernel().seen.is_empty());
}

#[test]
fn names_are_the_text_of_the_path() {
    let mut sys = fresh(vec![text(b"tcp:1.2.3.4:80/5.6.7.8:90")]);
    let mut address = blank();
    let mut len = 0;
    assert_eq!(redox_posix::socket::getpeername(&mut sys, 3, &mut address, &mut len), 0);
    assert_eq!(len, 10);
    assert_eq!(&address.data[..10], b"1.2.3.4:80");
    assert_eq!(sys.kernel().seen, vec![seen("fpath", &[3, 32], &[])]);
    let mut sys = fresh(vec![text(b"udp:1.2.3.4:80/5.6.7.8:90")]);
    let mut address = blank();
    assert_eq!(redox_posix::socket::getsockname(&mut sys, 3, &mut address, &mut len), 0);
    assert_eq!(len, 10);
    assert_eq!(&address.data[..10], b"5.6.7.8:90");
    assert_eq!(sys.get_errno(), 0);
}

#[test]
fn names_are_cut_to_the_payload() {
    let mut sys = fresh(vec![text(b"tcp:100.100.100.100:10000/x")]);
    let mut address = blank();
    let mut len = 0;
    assert_eq!(redox_posix::socket::getpeername(&mut sys, 3, &mut address, &mut len), 0);
    assert_eq!(len, 14);
    assert_eq!(&address.data, b"100.100.100.10");
}

#[test]
fn name_parts_of_paths() {
    let name = redox_posix::text::socket_name;
    assert_eq!(name(false, b"tcp:a/b"), Some(b"a".to_vec()));
    assert_eq!(name(true, b"tcp:a/b"), Some(b"b".to_vec()));
    assert_eq!(name(true, b"tcp:a/b/c"), Some(b"b".to_vec()));
    assert_eq!(name(false, b"tcp:"), Some(Vec::new()));
    assert_eq!(name(true, b"tcp:"), None);
    assert_eq!(name(false, b"udp:abc"), Some(b"abc".to_vec()));
    assert_eq!(name(true, b"udp:abc"), None);
    assert_eq!(name(true, b"udp:abc/"), Some(Vec::new()));
    assert_eq!(name(false, b"tcp"), None);
    assert_eq!(name(false, b"ftp:a/b"), None);
    assert_eq!(name(false, b""), None);
    assert_eq!(name(false, b"tcp:/b"), Some(Vec::new()));
}

#[test]
fn malformed_path_is_a_protocol_error() {
    for reply in [text(b"file:/etc"), text(b"tc"), text(b"tcp:no-local-part")] {
        let mut sys = fresh(vec![reply]);
        let mut address = blank();
        let mut len = 3;
        assert_eq!(redox_posix::socket::getsockname(&mut sys, 3, &mut address, &mut len), -1);
        assert_eq!(sys.get_errno(), EPROTO);
        assert_eq!(address, blank());
        assert_eq!(len, 3);
    }
    let mut sys = fresh(vec![Answer { result: Ok(33), ..text(b"tcp:a/b") }]);
    let mut address = blank();
    let mut len = 3;
    assert_eq!(redox_posix::socket::getpeername(&mut sys, 3, &mut address, &mut len), -1);
    assert_eq!(sys.get_errno(), EPROTO);
}

#[test]
fn path_is_read_up_to_the_reported_length() {
    let mut sys = fresh(vec![Answer { result: Ok(9), ..text(b"tcp:ab/cdXXXX") }]);
    let mut address = blank();
    let mut len = 0;
    assert_eq!(redox_posix::socket::getsockname(&mut sys, 3, &mut address, &mut len), 0);
    assert_eq!(len, 2);
    assert_eq!(&address.data[..2], b"cd");
}

#[test]
fn failed_lookup_reports_the_kernel_error() {
    let mut sys = fresh(vec![fails(9)]);
    let mut address = blank();
    let mut len = 3;
    assert_eq!(redox_posix::socket::getpeername(&mut sys, 3, &mut address, &mut len), -1);
    assert_eq!(sys.get_errno(), 9);
    assert_eq!(address, blank());
    assert_eq!(len, 3);
}

#[test]
fn inner_lookup_leaves_errno_alone() {
    let mut sys = fresh(vec![fails(9)]);
    let mut address = blank();
    let mut len = 3;
    let result = redox_posix::socket::inner_get_name(&mut sys, true, 3, &mut address, &mut len);
    assert_eq!(result, Err(Error { errno: 9 }));
    assert_eq!(sys.get_errno(), 0);
    let mut sys = fresh(vec![text(b"tcp:a/b")]);
    let result = redox_posix::socket::inner_get_name(&mut sys, true, 3, &mut address, &mut len);
    assert_eq!(result, Ok(0));
    assert_eq!(len, 1);
    assert_eq!(address.data[0], b'b');
}

#[test]
fn recvfrom_refuses_flags() {
    let mut sys = fresh(vec![]);
    let mut buf = [0u8; 4];
    assert_eq!(redox_posix::socket::recvfrom(&mut sys, 3, &mut buf, 1, None, None), -1);
    assert_eq!(sys.get_errno(), EOPNOTSUPP);
    assert!(sys.kernel().seen.is_empty());
}

#[test]
fn recvfrom_reads_and_names_the_sender() {
    let mut sys = fresh(vec![text(b"udp:9.9.9.9:53/0.0.0.0:0"), text(b"abc")]);
    let mut buf = [0u8; 4];
    let mut address = blank();
    let mut len = 0;
    let got =
        redox_posix::socket::recvfrom(&mut sys, 3, &mut buf, 0, Some(&mut address), Some(&mut len));
    assert_eq!(got, 3);
    assert_eq!(&buf, b"abc\0");
    assert_eq!(len, 10);
    assert_eq!(&address.data[..10], b"9.9.9.9:53");
    assert_eq!(sys.kernel().seen, vec![seen("fpath", &[3, 32], &[]), seen("read", &[3, 4], &[])]);
    let mut sys = fresh(vec![text(b"xyz")]);
    assert_eq!(redox_posix::socket::recvfrom(&mut sys, 3, &mut buf, 0, None, None), 3);
    assert_eq!(sys.kernel().seen, vec![seen("read", &[3, 4], &[])]);
}

#[test]
fn recvfrom_stops_when_the_lookup_fails() {
    let mut sys = fresh(vec![fails(9)]);
    let mut buf = [0u8; 4];
    let mut address = blank();
    let mut len = 0;
    let got =
        redox_posix::socket::recvfrom(&mut sys, 3, &mut buf, 0, Some(&mut address), Some(&mut len));
    assert_eq!(got, -1);
    assert_eq!(sys.get_errno(), 9);
    assert_eq!(sys.kernel().seen.len(), 1);
}

#[test]
fn sendto_refuses_a_destination_and_flags() {
    let address = inet([1, 1, 1, 1], 1);
    let mut sys = fresh(vec![]);
    assert_eq!(redox_posix::socket::sendto(&mut sys, 3, b"hi", 0, Some(&address), 16), -1);
    assert_eq!(sys.get_errno(), EISCONN);
    let mut sys = fresh(vec![]);
    assert_eq!(redox_posix::socket::sendto(&mut sys, 3, b"hi", 0, None, 16), -1);
    assert_eq!(sys.get_errno(), EISCONN);
    let mut sys = fresh(vec![]);
    assert_eq!(redox_posix::socket::sendto(&mut sys, 3, b"hi", 1, Some(&address), 0), -1);
    assert_eq!(sys.get_errno(), EISCONN);
    let mut sys = fresh(vec![]);
    assert_eq!(redox_posix::socket::sendto(&mut sys, 3, b"hi", 1, None, 0), -1);
    assert_eq!(sys.get_errno(), EOPNOTSUPP);
    assert!(sys.kernel().seen.is_empty());
}

#[test]
fn sendto_writes_to_the_socket() {
    let mut sys = fresh(vec![ok(2)]);
    assert_eq!(redox_posix::socket::sendto(&mut sys, 3, b"hi", 0, None, 0), 2);
    assert_eq!(sys.kernel().seen, vec![seen("write", &[3], &[b"hi"])]);
}

#[test]
fn stubs_fail_and_say_so() {
    let mut sys = fresh(vec![]);
    assert_eq!(redox_posix::socket::shutdown(&mut sys, 3, 1), -1);
    assert_eq!(sys.kernel().seen, vec![seen("write", &[2], &[b"unimplemented: shutdown(3, 1)"])]);
    let mut sys = fresh(vec![]);
    let mut value = [7u8; 4];
    let mut len = 4;
    assert_eq!(redox_posix::socket::getsockopt(&mut sys, 3, 1, -2, &mut value, &mut len), -1);
    assert_eq!(
        sys.kernel().seen,
        vec![seen("write", &[2], &[b"unimplemented: getsockopt(3, 1, -2)"])]
    );
    assert_eq!(value, [7u8; 4]);
    assert_eq!(len, 4);
    let mut sys = fresh(vec![]);
    assert_eq!(redox_posix::socket::setsockopt(&mut sys, 3, 1, 2, &value, 4), -1);
    assert_eq!(
        sys.kernel().seen,
        vec![seen("write", &[2], &[b"unimplemented: setsockopt(3, 1, 2, 4)"])]
    );
    let mut sys = fresh(vec![]);
    let mut pair = [5, 6];
    assert_eq!(redox_posix::socket::socketpair(&mut sys, 2, 1, 0, &mut pair), -1);
    assert_eq!(
        sys.kernel().seen,
        vec![seen("write", &[2], &[b"unimplemented: socketpair(2, 1, 0)"])]
    );
    assert_eq!(pair, [5, 6]);
}

#[test]
fn stubs_fail_whatever_the_writing_gives() {
    let mut sys = fresh(vec![fails(9)]);
    assert_eq!(redox_posix::socket::shutdown(&mut sys, 3, 1), -1);
    let mut sys = fresh(vec![ok(100)]);
    assert_eq!(redox_posix::socket::shutdown(&mut sys, 3, 1), -1);
}

#[test]
fn diagnostic_text() {
    let line = redox_posix::text::diagnostic_line;
    assert_eq!(line(b"f", &[]), b"unimplemented: f()".to_vec());
    assert_eq!(line(b"f", &[1]), b"unimplemented: f(1)".to_vec());
    assert_eq!(line(b"name", &[1, -20, 300]), b"unimplemented: name(1, -20, 300)".to_vec());
}

#[test]
fn execve_stores_well_formed_entries_only() {
    let mut sys = fresh(vec![ok(4), ok(1), ok(0), ok(5), ok(0), ok(0)]);
    let envp = vec![b"A=1".to_vec(), b"=2".to_vec(), b"B=".to_vec()];
    let argv = vec![b"prog".to_vec(), b"-v".to_vec()];
    assert_eq!(redox_posix::process::execve(&mut sys, b"/bin/prog", &argv, &envp), 0);
    let flags = (O_WRONLY | O_CREAT) as i128;
    assert_eq!(
        sys.kernel().seen,
        vec![
            seen("open", &[flags], &[b"env:A"]),
            seen("write", &[4], &[b"1"]),
            seen("close", &[4], &[]),
            seen("open", &[flags], &[b"env:B"]),
            seen("close", &[5], &[]),
            seen("execve", &[], &[b"/bin/prog", b"prog", b"-v"]),
        ]
    );
}

#[test]
fn execve_skips_entries_without_separator() {
    let mut sys = fresh(vec![fails(8)]);
    let envp = vec![b"NOSEP".to_vec(), Vec::new(), b"=".to_vec()];
    assert_eq!(redox_posix::process::execve(&mut sys, b"p", &[], &envp), -1);
    assert_eq!(sys.get_errno(), 8);
    assert_eq!(sys.kernel().seen, vec![seen("execve", &[], &[b"p"])]);
}

#[test]
fn execve_takes_the_value_after_the_first_separator() {
    let mut sys = fresh(vec![ok(4), ok(3), ok(0), ok(0)]);
    let envp = vec![b"K=a=b".to_vec()];
    assert_eq!(redox_posix::process::execve(&mut sys, b"p", &[], &envp), 0);
    assert_eq!(sys.kernel().seen[0].texts, vec![b"env:K".to_vec()]);
    assert_eq!(sys.kernel().seen[1], seen("write", &[4], &[b"a=b"]));
}

#[test]
fn execve_stops_at_the_first_failure() {
    let envp = vec![b"A=1".to_vec(), b"B=2".to_vec()];
    let mut sys = fresh(vec![fails(13)]);
    assert_eq!(redox_posix::process::execve(&mut sys, b"p", &[], &envp), -1);
    assert_eq!(sys.get_errno(), 13);
    assert_eq!(sys.kernel().seen.len(), 1);
    let mut sys = fresh(vec![ok(4), fails(28)]);
    assert_eq!(redox_posix::process::execve(&mut sys, b"p", &[], &envp), -1);
    assert_eq!(sys.get_errno(), 28);
    assert_eq!(sys.kernel().seen.len(), 2);
    let mut sys = fresh(vec![ok(4), ok(1), fails(5)]);
    assert_eq!(redox_posix::process::execve(&mut sys, b"p", &[], &envp), -1);
    assert_eq!(sys.get_errno(), 5);
    assert_eq!(sys.kernel().seen.len(), 3);
    let mut sys = fresh(vec![ok(4), ok(1), ok(0), ok(4), ok(1), ok(0), fails(2)]);
    assert_eq!(redox_posix::process::execve(&mut sys, b"p", &[], &envp), -1);
    assert_eq!(sys.get_errno(), 2);
    assert_eq!(sys.kernel().seen.len(), 7);
}

#[test]
fn store_variable_reports_its_failure() {
    let mut sys = fresh(vec![ok(4), fails(28)]);
    assert_eq!(redox_posix::process::store_variable(&mut sys, b"A=1"), Some(Error { errno: 28 }));
    assert_eq!(sys.get_errno(), 0);
    let mut sys = fresh(vec![]);
    assert_eq!(redox_posix::process::store_variable(&mut sys, b"=1"), None);
    assert!(sys.kernel().seen.is_empty());
}

#[test]
fn variable_positions() {
    let at = redox_posix::text::variable;
    assert_eq!(at(b"A=1"), Some(2));
    assert_eq!(at(b"AB="), Some(3));
    assert_eq!(at(b"=1"), None);
    assert_eq!(at(b"A"), None);
    assert_eq!(at(b""), None);
    assert_eq!(redox_posix::text::find(b"a/b/c", b'/'), 1);
    assert_eq!(redox_posix::text::find(b"abc", b'/'), 3);
    assert_eq!(redox_posix::text::find(b"", b'/'), 0);
    assert_eq!(redox_posix::text::copy_range(b"abcdef", 2, 4), b"cd".to_vec());
    assert!(redox_posix::text::is_socket_path(b"udp:"));
    assert!(!redox_posix::text::is_socket_path(b"udq:"));
}

#[test]
fn nanosleep_of_zero_leaves_the_remainder_at_zero() {
    let mut sys = fresh(vec![ok(0)]);
    let request = TimeSpec { tv_sec: 0, tv_nsec: 0 };
    let mut left = TimeSpec { tv_sec: 0, tv_nsec: 0 };
    assert_eq!(redox_posix::time::nanosleep(&mut sys, &request, Some(&mut left)), 0);
    assert_eq!(left, TimeSpec { tv_sec: 0, tv_nsec: 0 });
    assert_eq!(sys.kernel().seen, vec![seen("nanosleep", &[0, 0, 0, 0], &[])]);
    assert_eq!(sys.get_errno(), 0);
}

#[test]
fn nanosleep_forwards_request_and_remainder() {
    let written = NativeTimeSpec { tv_sec: 1, tv_nsec: 500 };
    let mut sys = fresh(vec![Answer { time: Some(written), ..ok(0) }]);
    let request = TimeSpec { tv_sec: 2, tv_nsec: 7 };
    let mut left = TimeSpec { tv_sec: 8, tv_nsec: 9 };
    assert_eq!(redox_posix::time::nanosleep(&mut sys, &request, Some(&mut left)), 0);
    assert_eq!(left, TimeSpec { tv_sec: 1, tv_nsec: 500 });
    assert_eq!(sys.kernel().seen, vec![seen("nanosleep", &[2, 7, 8, 9], &[])]);
    let mut sys = fresh(vec![Answer { time: Some(written), ..ok(0) }]);
    assert_eq!(redox_posix::time::nanosleep(&mut sys, &request, None), 0);
    assert_eq!(sys.kernel().seen, vec![seen("nanosleep", &[2, 7, 0, 0], &[])]);
}

#[test]
fn interrupted_nanosleep_hands_on_the_remainder() {
    let written = NativeTimeSpec { tv_sec: 1, tv_nsec: 500 };
    let mut sys = fresh(vec![Answer { time: Some(written), ..fails(EINTR) }]);
    let request = TimeSpec { tv_sec: 2, tv_nsec: 7 };
    let mut left = TimeSpec { tv_sec: 8, tv_nsec: 9 };
    assert_eq!(redox_posix::time::nanosleep(&mut sys, &request, Some(&mut left)), -1);
    assert_eq!(sys.get_errno(), EINTR);
    assert_eq!(left, TimeSpec { tv_sec: 1, tv_nsec: 500 });
    assert_eq!(sys.kernel().seen, vec![seen("nanosleep", &[2, 7, 8, 9], &[])]);
    let mut sys = fresh(vec![Answer { time: Some(written), ..fails(EINTR) }]);
    assert_eq!(redox_posix::time::nanosleep(&mut sys, &request, None), -1);
    assert_eq!(sys.get_errno(), EINTR);
}

#[test]
fn nanosleep_that_fails_otherwise_leaves_the_remainder() {
    let written = NativeTimeSpec { tv_sec: 1, tv_nsec: 500 };
    for code in [EINVAL, 14, 38] {
        let mut sys = fresh(vec![Answer { time: Some(written), ..fails(code) }]);
        let request = TimeSpec { tv_sec: 2, tv_nsec: 7 };
        let mut left = TimeSpec { tv_sec: 8, tv_nsec: 9 };
        assert_eq!(redox_posix::time::nanosleep(&mut sys, &request, Some(&mut left)), -1);
        assert_eq!(sys.get_errno(), code);
        assert_eq!(left, TimeSpec { tv_sec: 8, tv_nsec: 9 });
    }
}

#[test]
fn clock_gettime_that_is_interrupted_leaves_the_time() {
    let written = NativeTimeSpec { tv_sec: 1, tv_nsec: 500 };
    let mut sys = fresh(vec![Answer { time: Some(written), ..fails(EINTR) }]);
    let mut now = TimeSpec { tv_sec: 3, tv_nsec: 4 };
    assert_eq!(redox_posix::time::clock_gettime(&mut sys, 1, &mut now), -1);
    assert_eq!(sys.get_errno(), EINTR);
    assert_eq!(now, TimeSpec { tv_sec: 3, tv_nsec: 4 });
}

#[test]
fn clock_gettime_writes_the_time() {
    let written = NativeTimeSpec { tv_sec: 1700000000, tv_nsec: 999_999_999 };
    let mut sys = fresh(vec![Answer { time: Some(written), ..ok(0) }]);
    let mut now = TimeSpec { tv_sec: 3, tv_nsec: 4 };
    assert_eq!(redox_posix::time::clock_gettime(&mut sys, 1, &mut now), 0);
    assert_eq!(now, TimeSpec { tv_sec: 1700000000, tv_nsec: 999_999_999 });
    assert_eq!(sys.kernel().seen, vec![seen("clock_gettime", &[1, 3, 4], &[])]);
    let mut sys = fresh(vec![fails(22)]);
    let mut now = TimeSpec { tv_sec: 3, tv_nsec: 4 };
    assert_eq!(redox_posix::time::clock_gettime(&mut sys, 99, &mut now), -1);
    assert_eq!(sys.get_errno(), 22);
    assert_eq!(now, TimeSpec { tv_sec: 3, tv_nsec: 4 });
}

#[test]
fn native_time_cuts_nanoseconds_to_32_bits() {
    let t = TimeSpec { tv_sec: -5, tv_nsec: 0x1_0000_0007 };
    assert_eq!(NativeTimeSpec::from_posix(&t), NativeTimeSpec { tv_sec: -5, tv_nsec: 7 });
    assert_eq!(NativeTimeSpec::zeroed(), NativeTimeSpec { tv_sec: 0, tv_nsec: 0 });
    assert_eq!(NativeStat::zeroed().st_size, 0);
}

#[test]
fn forwarders_pass_arguments_and_results() {
    let mut sys = fresh(vec![ok(3)]);
    assert_eq!(redox_posix::file::open(&mut sys, b"/etc/passwd", 0x0001_0000, 0o644), 3);
    assert_eq!(sys.kernel().seen, vec![seen("open", &[0x0001_0000 | 0o644], &[b"/etc/passwd"])]);
    let mut sys = fresh(vec![ok(4)]);
    assert_eq!(redox_posix::file::dup(&mut sys, 3), 4);
    assert_eq!(sys.kernel().seen, vec![seen("dup", &[3], &[b""])]);
    let mut sys = fresh(vec![ok(9)]);
    assert_eq!(redox_posix::file::dup2(&mut sys, 3, 9), 9);
    assert_eq!(sys.kernel().seen, vec![seen("dup2", &[3, 9], &[b""])]);
    let mut sys = fresh(vec![]);
    assert_eq!(redox_posix::file::fchmod(&mut sys, 3, 0o755), 0);
    assert_eq!(sys.kernel().seen, vec![seen("fchmod", &[3, 0o755], &[])]);
    let mut sys = fresh(vec![]);
    assert_eq!(redox_posix::file::fchown(&mut sys, 3, 1000, 100), 0);
    assert_eq!(sys.kernel().seen, vec![seen("fchown", &[3, 1000, 100], &[])]);
    let mut sys = fresh(vec![ok(1)]);
    assert_eq!(redox_posix::file::fcntl(&mut sys, 3, 2, 1), 1);
    assert_eq!(sys.kernel().seen, vec![seen("fcntl", &[3, 2, 1], &[])]);
    let mut sys = fresh(vec![]);
    assert_eq!(redox_posix::file::fsync(&mut sys, 3), 0);
    assert_eq!(sys.kernel().seen, vec![seen("fsync", &[3], &[])]);
    let mut sys = fresh(vec![]);
    assert_eq!(redox_posix::file::ftruncate(&mut sys, 3, 100), 0);
    assert_eq!(sys.kernel().seen, vec![seen("ftruncate", &[3, 100], &[])]);
    let mut sys = fresh(vec![]);
    assert_eq!(redox_posix::file::link(&mut sys, b"a", b"b"), 0);
    assert_eq!(sys.kernel().seen, vec![seen("link", &[], &[b"a", b"b"])]);
    let mut sys = fresh(vec![ok(50)]);
    assert_eq!(redox_posix::file::lseek(&mut sys, 3, -10, 2), 50);
    assert_eq!(sys.kernel().seen, vec![seen("lseek", &[3, -10, 2], &[])]);
    let mut sys = fresh(vec![]);
    assert_eq!(redox_posix::file::chdir(&mut sys, b"/tmp"), 0);
    assert_eq!(sys.kernel().seen, vec![seen("chdir", &[], &[b"/tmp"])]);
    let mut sys = fresh(vec![]);
    assert_eq!(redox_posix::file::rmdir(&mut sys, b"/tmp/d"), 0);
    assert_eq!(sys.kernel().seen, vec![seen("rmdir", &[], &[b"/tmp/d"])]);
    let mut sys = fresh(vec![]);
    assert_eq!(redox_posix::file::unlink(&mut sys, b"/tmp/f"), 0);
    assert_eq!(sys.kernel().seen, vec![seen("unlink", &[], &[b"/tmp/f"])]);
    let mut sys = fresh(vec![ok(5)]);
    assert_eq!(redox_posix::file::write(&mut sys, 1, b"hello"), 5);
    assert_eq!(sys.kernel().seen, vec![seen("write", &[1], &[b"hello"])]);
    let mut sys = fresh(vec![text(b"hey")]);
    let mut buf = [0u8; 8];
    assert_eq!(redox_posix::file::read(&mut sys, 0, &mut buf), 3);
    assert_eq!(&buf[..3], b"hey");
    assert_eq!(sys.kernel().seen, vec![seen("read", &[0, 8], &[])]);
}

#[test]
fn negative_descriptor_is_widened_with_its_sign() {
    let mut sys = fresh(vec![fails(9)]);
    assert_eq!(redox_posix::file::close(&mut sys, -1), -1);
    assert_eq!(sys.kernel().seen, vec![seen("close", &[usize::MAX as i128], &[])]);
    assert_eq!(sys.get_errno(), 9);
}

#[test]
fn forwarders_report_failure() {
    let mut sys = fresh(vec![fails(2)]);
    assert_eq!(redox_posix::file::open(&mut sys, b"/nope", 0, 0), -1);
    assert_eq!(sys.get_errno(), 2);
    let mut sys = fresh(vec![fails(9)]);
    let mut buf = [0u8; 8];
    assert_eq!(redox_posix::file::read(&mut sys, 0, &mut buf), -1);
    assert_eq!(sys.get_errno(), 9);
    let mut sys = fresh(vec![fails(9)]);
    assert_eq!(redox_posix::file::write(&mut sys, 0, b"x"), -1);
    assert_eq!(sys.get_errno(), 9);
    let mut sys = fresh(vec![fails(29)]);
    assert_eq!(redox_posix::file::lseek(&mut sys, 0, 0, 0), -1);
    assert_eq!(sys.get_errno(), 29);
    let mut sys = fresh(vec![fails(3)]);
    assert_eq!(redox_posix::process::kill(&mut sys, 77, 9), -1);
    assert_eq!(sys.get_errno(), 3);
    let mut sys = fresh(vec![fails(10)]);
    assert_eq!(redox_posix::process::waitpid(&mut sys, 77, None, 0), usize::MAX);
    assert_eq!(sys.get_errno(), 10);
    let mut sys = fresh(vec![fails(11)]);
    assert_eq!(redox_posix::process::fork(&mut sys), usize::MAX);
    assert_eq!(sys.get_errno(), 11);
}

#[test]
fn errno_stays_until_the_next_failure() {
    let mut sys = fresh(vec![fails(9), ok(0), fails(2)]);
    assert_eq!(redox_posix::file::close(&mut sys, 3), -1);
    assert_eq!(sys.get_errno(), 9);
    assert_eq!(redox_posix::file::close(&mut sys, 4), 0);
    assert_eq!(sys.get_errno(), 9);
    assert_eq!(redox_posix::file::close(&mut sys, 5), -1);
    assert_eq!(sys.get_errno(), 2);
}

#[test]
fn chmod_goes_through_a_descriptor() {
    let mut sys = fresh(vec![ok(6), ok(0), ok(0)]);
    assert_eq!(redox_posix::file::chmod(&mut sys, b"/f", 0o600), 0);
    assert_eq!(
        sys.kernel().seen,
        vec![
            seen("open", &[O_WRONLY as i128], &[b"/f"]),
            seen("fchmod", &[6, 0o600], &[]),
            seen("close", &[6], &[]),
        ]
    );
    let mut sys = fresh(vec![fails(2)]);
    assert_eq!(redox_posix::file::chmod(&mut sys, b"/f", 0o600), -1);
    assert_eq!(sys.get_errno(), 2);
    assert_eq!(sys.kernel().seen.len(), 1);
    let mut sys = fresh(vec![ok(6), fails(1), fails(5)]);
    assert_eq!(redox_posix::file::chmod(&mut sys, b"/f", 0o600), -1);
    assert_eq!(sys.get_errno(), 1);
    assert_eq!(sys.kernel().seen.len(), 3);
    let mut sys = fresh(vec![ok(6), ok(0), fails(5)]);
    assert_eq!(redox_posix::file::chmod(&mut sys, b"/f", 0o600), 0);
    assert_eq!(sys.get_errno(), 0);
}

#[test]
fn chown_and_rename_go_through_a_descriptor() {
    let mut sys = fresh(vec![ok(6), ok(0), ok(0)]);
    assert_eq!(redox_posix::file::chown(&mut sys, b"/f", 0x1_0000_0001, 7), 0);
    assert_eq!(
        sys.kernel().seen,
        vec![
            seen("open", &[O_WRONLY as i128], &[b"/f"]),
            seen("fchown", &[6, 1, 7], &[]),
            seen("close", &[6], &[]),
        ]
    );
    let mut sys = fresh(vec![ok(6), fails(18), ok(0)]);
    assert_eq!(redox_posix::file::rename(&mut sys, b"/a", b"/b"), -1);
    assert_eq!(sys.get_errno(), 18);
    assert_eq!(
        sys.kernel().seen,
        vec![
            seen("open", &[O_WRONLY as i128], &[b"/a"]),
            seen("frename", &[6], &[b"/b"]),
            seen("close", &[6], &[]),
        ]
    );
    let mut sys = fresh(vec![fails(2)]);
    assert_eq!(redox_posix::file::rename(&mut sys, b"/a", b"/b"), -1);
    assert_eq!(sys.get_errno(), 2);
    assert_eq!(sys.kernel().seen.len(), 1);
}

#[test]
fn mkdir_and_mkfifo_open_with_their_flags() {
    let mut sys = fresh(vec![ok(6), fails(5)]);
    assert_eq!(redox_posix::file::mkdir(&mut sys, b"/d", 0o7755), 0);
    assert_eq!(
        sys.kernel().seen,
        vec![seen("open", &[0x1b00_01ed], &[b"/d"]), seen("close", &[6], &[])]
    );
    assert_eq!(O_CREAT | O_EXCL | O_CLOEXEC | O_DIRECTORY | 0o755, 0x1b00_01ed);
    assert_eq!(sys.get_errno(), 0);
    let mut sys = fresh(vec![ok(6)]);
    assert_eq!(redox_posix::file::mkfifo(&mut sys, b"/p", 0o644), 0);
    assert_eq!(
        sys.kernel().seen,
        vec![seen("open", &[0x0200_11a4], &[b"/p"]), seen("close", &[6], &[])]
    );
    assert_eq!(O_CREAT | MODE_FIFO as usize | 0o644, 0x0200_11a4);
    let mut sys = fresh(vec![fails(17)]);
    assert_eq!(redox_posix::file::mkdir(&mut sys, b"/d", 0o755), -1);
    assert_eq!(sys.get_errno(), 17);
    assert_eq!(sys.kernel().seen.len(), 1);
}

#[test]
fn fstat_converts_the_native_record() {
    let mut sys = fresh(vec![Answer { stat: Some(some_native_stat()), ..ok(0) }]);
    let mut buf = no_stat();
    assert_eq!(redox_posix::file::fstat(&mut sys, 3, Some(&mut buf)), 0);
    assert_eq!(
        buf,
        Stat {
            st_dev: 1,
            st_ino: 2,
            st_nlink: 3,
            st_mode: 0o100644,
            st_uid: 1000,
            st_gid: 1001,
            st_rdev: 0,
            st_size: 4096,
            st_blksize: 512,
            st_atim: 10,
            st_mtim: 20,
            st_ctim: 30,
        }
    );
    assert_eq!(sys.kernel().seen, vec![seen("fstat", &[3], &[])]);
    let mut sys = fresh(vec![Answer { stat: Some(some_native_stat()), ..ok(0) }]);
    assert_eq!(redox_posix::file::fstat(&mut sys, 3, None), 0);
}

#[test]
fn fstat_fails_on_failure_and_on_any_other_answer() {
    let mut sys = fresh(vec![Answer { stat: Some(some_native_stat()), ..fails(9) }]);
    let mut buf = no_stat();
    assert_eq!(redox_posix::file::fstat(&mut sys, 3, Some(&mut buf)), -1);
    assert_eq!(sys.get_errno(), 9);
    assert_eq!(buf, no_stat());
    let mut sys = fresh(vec![Answer { stat: Some(some_native_stat()), ..ok(1) }]);
    assert_eq!(redox_posix::file::fstat(&mut sys, 3, Some(&mut buf)), -1);
    assert_eq!(sys.get_errno(), 0);
    assert_eq!(buf, no_stat());
}

#[test]
fn stat_and_lstat_go_through_a_descriptor() {
    let mut sys = fresh(vec![ok(6), Answer { stat: Some(some_native_stat()), ..ok(0) }, ok(0)]);
    let mut buf = no_stat();
    assert_eq!(redox_posix::file::stat(&mut sys, b"/f", Some(&mut buf)), 0);
    assert_eq!(buf.st_size, 4096);
    assert_eq!(buf.st_rdev, 0);
    assert_eq!(
        sys.kernel().seen,
        vec![
            seen("open", &[O_RDONLY as i128], &[b"/f"]),
            seen("fstat", &[6], &[]),
            seen("close", &[6], &[]),
        ]
    );
    let mut sys = fresh(vec![ok(6), fails(5), ok(0)]);
    let mut buf = no_stat();
    assert_eq!(redox_posix::file::lstat(&mut sys, b"/l", Some(&mut buf)), -1);
    assert_eq!(sys.get_errno(), 5);
    assert_eq!(buf, no_stat());
    assert_eq!(
        sys.kernel().seen,
        vec![
            seen("open", &[(O_RDONLY | O_NOFOLLOW) as i128], &[b"/l"]),
            seen("fstat", &[6], &[]),
            seen("close", &[6], &[]),
        ]
    );
    assert_eq!(O_RDONLY | O_NOFOLLOW, 0x8001_0000);
    let mut sys = fresh(vec![fails(2)]);
    assert_eq!(redox_posix::file::stat(&mut sys, b"/f", None), -1);
    assert_eq!(sys.get_errno(), 2);
    assert_eq!(sys.kernel().seen.len(), 1);
}

#[test]
fn fchdir_changes_to_the_whole_buffer() {
    let mut sys = fresh(vec![text(b"file:/home"), ok(0)]);
    assert_eq!(redox_posix::file::fchdir(&mut sys, 3), 0);
    assert_eq!(sys.kernel().seen[0], seen("fpath", &[3, 4096], &[]));
    assert_eq!(sys.kernel().seen[1].name, "chdir");
    let mut whole = vec![0u8; 4096];
    whole[..10].copy_from_slice(b"file:/home");
    assert_eq!(sys.kernel().seen[1].texts, vec![whole]);
    let mut sys = fresh(vec![fails(9)]);
    assert_eq!(redox_posix::file::fchdir(&mut sys, 3), -1);
    assert_eq!(sys.get_errno(), 9);
    assert_eq!(sys.kernel().seen.len(), 1);
    let mut sys = fresh(vec![text(b"file:/home"), fails(20)]);
    assert_eq!(redox_posix::file::fchdir(&mut sys, 3), -1);
    assert_eq!(sys.get_errno(), 20);
}

#[test]
fn getcwd_fills_the_buffer_or_fails() {
    let mut sys = fresh(vec![text(b"file:/")]);
    let mut buf = [0u8; 16];
    assert!(redox_posix::file::getcwd(&mut sys, &mut buf));
    assert_eq!(&buf[..6], b"file:/");
    assert_eq!(sys.kernel().seen, vec![seen("getcwd", &[16], &[])]);
    let mut sys = fresh(vec![fails(34)]);
    assert!(!redox_posix::file::getcwd(&mut sys, &mut buf));
    assert_eq!(sys.get_errno(), 34);
}

#[test]
fn pipe_writes_both_descriptors() {
    let mut sys = fresh(vec![Answer { pair: Some((3, 4)), ..ok(0) }]);
    let mut fds = [-1, -1, -1];
    assert_eq!(redox_posix::file::pipe(&mut sys, &mut fds), 0);
    assert_eq!(fds, [3, 4, -1]);
    assert_eq!(sys.kernel().seen, vec![seen("pipe2", &[0, 0, 0], &[])]);
    let mut sys = fresh(vec![fails(24)]);
    let mut fds = [-1, -1];
    assert_eq!(redox_posix::file::pipe(&mut sys, &mut fds), -1);
    assert_eq!(fds, [0, 0]);
    assert_eq!(sys.get_errno(), 24);
}

#[test]
fn identities_are_forwarded() {
    let mut sys = fresh(vec![ok(1), ok(2), ok(3), ok(4), ok(5), ok(6), ok(7)]);
    assert_eq!(redox_posix::process::getegid(&mut sys), 1);
    assert_eq!(redox_posix::process::geteuid(&mut sys), 2);
    assert_eq!(redox_posix::process::getgid(&mut sys), 3);
    assert_eq!(redox_posix::process::getpgid(&mut sys, 40), 4);
    assert_eq!(redox_posix::process::getpid(&mut sys), 5);
    assert_eq!(redox_posix::process::getppid(&mut sys), 6);
    assert_eq!(redox_posix::process::getuid(&mut sys), 7);
    assert_eq!(
        sys.kernel().seen,
        vec![
            seen("getegid", &[], &[]),
            seen("geteuid", &[], &[]),
            seen("getgid", &[], &[]),
            seen("getpgid", &[40], &[]),
            seen("getpid", &[], &[]),
            seen("getppid", &[], &[]),
            seen("getuid", &[], &[]),
        ]
    );
    let mut sys = fresh(vec![]);
    assert_eq!(redox_posix::process::setpgid(&mut sys, 1, 2), 0);
    assert_eq!(redox_posix::process::setregid(&mut sys, 3, 4), 0);
    assert_eq!(redox_posix::process::setreuid(&mut sys, 5, 6), 0);
    assert_eq!(
        sys.kernel().seen,
        vec![
            seen("setpgid", &[1, 2], &[]),
            seen("setregid", &[3, 4], &[]),
            seen("setreuid", &[5, 6], &[]),
        ]
    );
}

#[test]
fn fork_clones_without_flags() {
    let mut sys = fresh(vec![ok(1234)]);
    assert_eq!(redox_posix::process::fork(&mut sys), 1234);
    assert_eq!(sys.kernel().seen, vec![seen("clone", &[0], &[])]);
}

#[test]
fn kill_and_killpg_name_their_target() {
    let mut sys = fresh(vec![]);
    assert_eq!(redox_posix::process::kill(&mut sys, 77, 15), 0);
    assert_eq!(sys.kernel().seen, vec![seen("kill", &[77, 15], &[])]);
    let mut sys = fresh(vec![]);
    assert_eq!(redox_posix::process::killpg(&mut sys, 5, 9), 0);
    assert_eq!(sys.kernel().seen, vec![seen("kill", &[(-5isize) as usize as i128, 9], &[])]);
    let mut sys = fresh(vec![]);
    assert_eq!(redox_posix::process::killpg(&mut sys, 0, 9), 0);
    assert_eq!(sys.kernel().seen, vec![seen("kill", &[0, 9], &[])]);
    let mut sys = fresh(vec![]);
    assert_eq!(redox_posix::process::killpg(&mut sys, usize::MAX, 9), 0);
    assert_eq!(sys.kernel().seen, vec![seen("kill", &[1, 9], &[])]);
}

#[test]
fn waitpid_hands_out_the_status() {
    let mut sys = fresh(vec![Answer { word: Some(0x100), ..ok(77) }]);
    let mut status = -1;
    assert_eq!(redox_posix::process::waitpid(&mut sys, 77, Some(&mut status), 1), 77);
    assert_eq!(status, 0x100);
    assert_eq!(sys.kernel().seen, vec![seen("waitpid", &[77, 0, 1], &[])]);
    let mut sys = fresh(vec![fails(10)]);
    let mut status = -1;
    assert_eq!(redox_posix::process::waitpid(&mut sys, 77, Some(&mut status), 0), usize::MAX);
    assert_eq!(status, 0);
    assert_eq!(sys.get_errno(), 10);
}

#[test]
fn brk_returns_zero_on_failure_and_leaves_errno() {
    let mut sys = fresh(vec![ok(0x5000), fails(12)]);
    assert_eq!(redox_posix::process::brk(&mut sys, 0x5000), 0x5000);
    assert_eq!(redox_posix::process::brk(&mut sys, 0x9000), 0);
    assert_eq!(sys.get_errno(), 0);
    assert_eq!(sys.kernel().seen, vec![seen("brk", &[0x5000], &[]), seen("brk", &[0x9000], &[])]);
}

#[test]
fn exit_asks_the_kernel() {
    let mut sys = fresh(vec![]);
    redox_posix::process::exit(&mut sys, 3);
    assert_eq!(sys.kernel().seen, vec![seen("exit", &[3], &[])]);
}

#[test]
fn constants_are_those_of_the_kernel_interface() {
    assert_eq!(O_RDONLY, syscall::O_RDONLY);
    assert_eq!(O_WRONLY, syscall::O_WRONLY);
    assert_eq!(O_RDWR, syscall::O_RDWR);
    assert_eq!(O_NONBLOCK, syscall::O_NONBLOCK);
    assert_eq!(O_CLOEXEC, syscall::O_CLOEXEC);
    assert_eq!(O_CREAT, syscall::O_CREAT);
    assert_eq!(O_EXCL, syscall::O_EXCL);
    assert_eq!(O_DIRECTORY, syscall::O_DIRECTORY);
    assert_eq!(O_NOFOLLOW, syscall::O_NOFOLLOW);
    assert_eq!(MODE_FIFO, syscall::MODE_FIFO);
    assert_eq!(EINTR, syscall::EINTR);
    assert_eq!(EINVAL, syscall::EINVAL);
    assert_eq!(EPROTO, syscall::EPROTO);
    assert_eq!(EPROTOTYPE, syscall::EPROTOTYPE);
    assert_eq!(EPROTONOSUPPORT, syscall::EPROTONOSUPPORT);
    assert_eq!(EOPNOTSUPP, syscall::EOPNOTSUPP);
    assert_eq!(EAFNOSUPPORT, syscall::EAFNOSUPPORT);
    assert_eq!(EISCONN, syscall::EISCONN);
}
