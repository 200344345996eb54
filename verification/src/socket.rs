//! Sockets on a kernel that has none: a socket is a descriptor of the `tcp:`
//! or `udp:` scheme, and it is addressed by duplicating it with a text
//! parameter.

use crate::abi::{
    c_int, socklen_t, ssize_t, Error, SockAddr, AF_INET, EAFNOSUPPORT, EINVAL, EISCONN,
    EOPNOTSUPP, EPROTO, EPROTONOSUPPORT, EPROTOTYPE, O_CLOEXEC, O_NONBLOCK, O_RDWR, SOCKADDR_LEN,
    SOCK_CLOEXEC, SOCK_DGRAM, SOCK_NONBLOCK, SOCK_STREAM,
};
use crate::errno::e;
use crate::native::{errno_after, sentinel, zeros, Call, Event, Native, Sys};
use crate::text::{
    copy_range, diagnostic, diagnostic_line, dial_parameter, dial_parameter_of, has_socket_scheme,
    listen_parameter, position, socket_name, socket_name_of, tcp_scheme, udp_scheme, until_slash,
    SLASH,
};
use vstd::prelude::*;

verus! {

/// Size of the buffer that receives a socket's path.
pub const NAME_BUFFER_LEN: usize = 32;

/// What a name lookup leaves behind: the return value, the payload and the
/// length of the caller's address, and `errno`.
pub struct Lookup {
    pub ret: c_int,
    pub data: Seq<u8>,
    pub len: socklen_t,
    pub errno: c_int,
}

/// The name that a path query yields. The kernel's failure is passed on. A
/// path that is longer than the buffer, that lacks a socket scheme, or that
/// lacks the part asked for, is a protocol error.
pub open spec fn name_answer(local: bool, result: Result<usize, Error>, written: Seq<u8>) -> Result<
    Seq<u8>,
    Error,
> {
    match result {
        Err(error) => Err(error),
        Ok(len) => if len <= written.len() {
            match socket_name_of(local, written.take(len as int)) {
                Some(part) => Ok(part),
                None => Err(Error { errno: EPROTO }),
            }
        } else {
            Err(Error { errno: EPROTO })
        },
    }
}

/// The number of bytes of a name that fit into an address payload.
pub open spec fn name_len(data: Seq<u8>, part: Seq<u8>) -> int {
    if part.len() < data.len() {
        part.len() as int
    } else {
        data.len() as int
    }
}

/// An address payload after a name was copied to its front: as many bytes of
/// the name as fit, the rest of the payload as it was.
pub open spec fn name_written(data: Seq<u8>, part: Seq<u8>) -> Seq<u8> {
    Seq::new(
        data.len(),
        |i: int|
            if i < part.len() {
                part[i]
            } else {
                data[i]
            },
    )
}

/// What a name lookup leaves behind, given the kernel's answer `answer` to
/// the path query. On success the name's text, not a binary address, is in
/// the payload, and the length is that of the copied text. On failure the
/// address and its length are untouched and `errno` holds the error.
pub open spec fn lookup(
    local: bool,
    data: Seq<u8>,
    len: socklen_t,
    errno: c_int,
    answer: Event,
) -> Lookup {
    match name_answer(local, answer.result, answer.output.bytes()) {
        Ok(part) => Lookup {
            ret: 0,
            data: name_written(data, part),
            len: name_len(data, part) as socklen_t,
            errno,
        },
        Err(error) => Lookup { ret: -1i32, data, len, errno: error.errno },
    }
}

/// The path of `socket` was queried, by one call with a zeroed buffer of
/// `NAME_BUFFER_LEN` bytes.
pub open spec fn queries_path(event: Event, socket: c_int) -> bool {
    event.call == Call::Fpath { fd: socket as usize, buf: zeros(NAME_BUFFER_LEN as nat) }
}

/// Looks up the remote or the local name of a socket: queries the socket's
/// path once and copies the part asked for into the payload of `address`.
pub fn inner_get_name<K: Native>(
    sys: &mut Sys<K>,
    local: bool,
    socket: c_int,
    address: &mut SockAddr,
    address_len: &mut socklen_t,
) -> (result: Result<usize, Error>)
    ensures
        final(sys).trace() == old(sys).trace().push(final(sys).answer()),
        queries_path(final(sys).answer(), socket),
        final(sys).errno() == old(sys).errno(),
        final(address).sa_family == old(address).sa_family,
        match name_answer(local, final(sys).answer().result, final(sys).answer().output.bytes()) {
            Ok(part) => {
                &&& result == Ok::<usize, Error>(0)
                &&& final(address).data@ == name_written(old(address).data@, part)
                &&& *final(address_len) == name_len(old(address).data@, part)
            },
            Err(error) => {
                &&& result == Err::<usize, Error>(error)
                &&& final(address).data@ == old(address).data@
                &&& *final(address_len) == *old(address_len)
            },
        },
{
    let mut buf = [0u8; 32];
    assert(buf@ =~= zeros(NAME_BUFFER_LEN as nat));
    let answer = sys.native_fpath(socket as usize, &mut buf);
    let len = match answer {
        Ok(len) => len,
        Err(error) => {
            return Err(error);
        },
    };
    if len > buf.len() {
        return Err(Error { errno: EPROTO });
    }
    let path = copy_range(&buf, 0, len);
    assert(path@ =~= buf@.take(len as int));
    match socket_name(local, path.as_slice()) {
        None => Err(Error { errno: EPROTO }),
        Some(part) => {
            let count = if part.len() < 14 {
                part.len()
            } else {
                14
            };
            let mut i: usize = 0;
            while i < count
                invariant
                    i <= count <= 14,
                    count <= part@.len(),
                    address.sa_family == old(address).sa_family,
                    forall|j: int| 0 <= j < i ==> address.data@[j] == part@[j],
                    forall|j: int| i <= j < 14 ==> address.data@[j] == old(address).data@[j],
                decreases count - i,
            {
                address.data[i] = part[i];
                i += 1;
            }
            *address_len = count as socklen_t;
            assert(address.data@ =~= name_written(old(address).data@, part@));
            Ok(0)
        },
    }
}

/// A name lookup took place: the path of `socket` was queried once, and the
/// caller's address, its length, the return value and `errno` are what
/// `lookup` says.
pub open spec fn looked_up<K: Native>(
    local: bool,
    socket: c_int,
    before: Sys<K>,
    after: Sys<K>,
    address: SockAddr,
    len: socklen_t,
    ret: c_int,
    address_after: SockAddr,
    len_after: socklen_t,
) -> bool {
    let found = lookup(local, address.data@, len, before.errno(), after.answer());
    &&& after.trace() == before.trace().push(after.answer())
    &&& queries_path(after.answer(), socket)
    &&& ret == found.ret
    &&& address_after.sa_family == address.sa_family
    &&& address_after.data@ == found.data
    &&& len_after == found.len
    &&& after.errno() == found.errno
}

/// Writes the name of the remote end of `socket` into `address`.
pub fn getpeername<K: Native>(
    sys: &mut Sys<K>,
    socket: c_int,
    address: &mut SockAddr,
    address_len: &mut socklen_t,
) -> (ret: c_int)
    ensures
        looked_up(
            false,
            socket,
            *old(sys),
            *final(sys),
            *old(address),
            *old(address_len),
            ret,
            *final(address),
            *final(address_len),
        ),
{
    let result = inner_get_name(sys, false, socket, address, address_len);
    proof {
        crate::errno::lemma_all_ones();
    }
    e(sys, result) as c_int
}

/// Writes the name of the local end of `socket` into `address`.
pub fn getsockname<K: Native>(
    sys: &mut Sys<K>,
    socket: c_int,
    address: &mut SockAddr,
    address_len: &mut socklen_t,
) -> (ret: c_int)
    ensures
        looked_up(
            true,
            socket,
            *old(sys),
            *final(sys),
            *old(address),
            *old(address_len),
            ret,
            *final(address),
            *final(address_len),
        ),
{
    let result = inner_get_name(sys, true, socket, address, address_len);
    proof {
        crate::errno::lemma_all_ones();
    }
    e(sys, result) as c_int
}

/// What binding (`listening`) or connecting a socket does. An address of
/// another family than `AF_INET`, or a length below that of an address, is
/// refused before the kernel is asked anything. Otherwise the socket is
/// duplicated with the endpoint's text as parameter; if that yields a
/// descriptor, the descriptor is duplicated back onto the socket's number
/// and then closed, whatever the second duplication gave.
pub open spec fn dials(
    listening: bool,
    socket: c_int,
    address: SockAddr,
    address_len: socklen_t,
    errno: c_int,
    added: Seq<Event>,
    ret: c_int,
    errno_after_all: c_int,
) -> bool {
    if address.sa_family as c_int != AF_INET {
        added.len() == 0 && ret == -1 && errno_after_all == EAFNOSUPPORT
    } else if (address_len as usize) < SOCKADDR_LEN {
        added.len() == 0 && ret == -1 && errno_after_all == EINVAL
    } else {
        &&& added.len() >= 1
        &&& added[0].call == Call::Dup {
            fd: socket as usize,
            param: dial_parameter_of(listening, address.data@),
        }
        &&& if (sentinel(added[0].result) as c_int) < 0 {
            &&& added.len() == 1
            &&& ret == -1
            &&& errno_after_all == errno_after(errno, added[0].result)
        } else {
            &&& added.len() == 3
            &&& added[1].call == Call::Dup2 {
                fd: sentinel(added[0].result),
                new_fd: socket as usize,
                param: Seq::<u8>::empty(),
            }
            &&& added[2].call == Call::Close { fd: sentinel(added[0].result) }
            &&& errno_after_all == errno_after(
                errno_after(errno, added[0].result),
                added[1].result,
            )
            &&& ret == if (sentinel(added[1].result) as c_int) < 0 {
                -1 as c_int
            } else {
                0
            }
        }
    }
}

fn bind_or_connect<K: Native>(
    sys: &mut Sys<K>,
    listening: bool,
    socket: c_int,
    address: &SockAddr,
    address_len: socklen_t,
) -> (ret: c_int)
    ensures
        final(sys).continues(*old(sys)),
        final(sys).added(*old(sys)).len() == 0 ==> final(sys).held() == old(sys).held(),
        dials(
            listening,
            socket,
            *address,
            address_len,
            old(sys).errno(),
            final(sys).added(*old(sys)),
            ret,
            final(sys).errno(),
        ),
{
    if address.sa_family as c_int != AF_INET {
        sys.set_errno(EAFNOSUPPORT);
        assert(sys.added(*old(sys)) =~= Seq::<Event>::empty());
        return -1;
    }
    if (address_len as usize) < SOCKADDR_LEN {
        sys.set_errno(EINVAL);
        assert(sys.added(*old(sys)) =~= Seq::<Event>::empty());
        return -1;
    }
    let param = dial_parameter(listening, &address.data);
    let duplicated = sys.native_dup(socket as usize, param.as_slice());
    let fd = e(sys, duplicated);
    if (fd as c_int) < 0 {
        assert(sys.added(*old(sys)) =~= seq![sys.trace().last()]);
        return -1;
    }
    let ghost first = sys.trace().last();
    let none: Vec<u8> = Vec::new();
    let result = sys.native_dup2(fd, socket as usize, none.as_slice());
    let ghost second = sys.trace().last();
    let _ = sys.native_close(fd);
    let ghost third = sys.trace().last();
    assert(sys.added(*old(sys)) =~= seq![first, second, third]);
    assert(none@ =~= Seq::<u8>::empty());
    if (e(sys, result) as c_int) < 0 {
        return -1;
    }
    0
}

/// Binds `socket` to the local endpoint in `address`.
pub fn bind<K: Native>(
    sys: &mut Sys<K>,
    socket: c_int,
    address: &SockAddr,
    address_len: socklen_t,
) -> (ret: c_int)
    ensures
        final(sys).continues(*old(sys)),
        final(sys).added(*old(sys)).len() == 0 ==> final(sys).held() == old(sys).held(),
        dials(
            true,
            socket,
            *address,
            address_len,
            old(sys).errno(),
            final(sys).added(*old(sys)),
            ret,
            final(sys).errno(),
        ),
{
    bind_or_connect(sys, true, socket, address, address_len)
}

/// Connects `socket` to the remote endpoint in `address`.
pub fn connect<K: Native>(
    sys: &mut Sys<K>,
    socket: c_int,
    address: &SockAddr,
    address_len: socklen_t,
) -> (ret: c_int)
    ensures
        final(sys).continues(*old(sys)),
        final(sys).added(*old(sys)).len() == 0 ==> final(sys).held() == old(sys).held(),
        dials(
            false,
            socket,
            *address,
            address_len,
            old(sys).errno(),
            final(sys).added(*old(sys)),
            ret,
            final(sys).errno(),
        ),
{
    bind_or_connect(sys, false, socket, address, address_len)
}

/// The socket type without the two flag bits that may ride on it.
pub open spec fn socket_type(kind: c_int) -> c_int {
    kind & !SOCK_NONBLOCK & !SOCK_CLOEXEC
}

/// The scheme that serves a socket type: `tcp:` for streams, `udp:` for
/// datagrams, none for anything else.
pub open spec fn socket_scheme(kind: c_int) -> Option<Seq<u8>> {
    if socket_type(kind) == SOCK_STREAM {
        Some(tcp_scheme())
    } else if socket_type(kind) == SOCK_DGRAM {
        Some(udp_scheme())
    } else {
        None
    }
}

/// The flags with which a socket's scheme is opened: read and write, and
/// one native flag for each of the two flag bits that ride on the type.
pub open spec fn socket_flags(kind: c_int) -> usize {
    O_RDWR | (if kind & SOCK_NONBLOCK == SOCK_NONBLOCK {
        O_NONBLOCK
    } else {
        0
    }) | (if kind & SOCK_CLOEXEC == SOCK_CLOEXEC {
        O_CLOEXEC
    } else {
        0
    })
}

/// A plain stream socket is served by `tcp:` and a plain datagram socket by
/// `udp:`, both opened to read and write with no further flag; the two
/// flag bits on a type change the flags and not the scheme.
pub proof fn plain_socket_types()
    ensures
        socket_scheme(SOCK_STREAM) == Some(tcp_scheme()),
        socket_scheme(SOCK_DGRAM) == Some(udp_scheme()),
        socket_flags(SOCK_STREAM) == O_RDWR,
        socket_flags(SOCK_DGRAM) == O_RDWR,
        socket_scheme(SOCK_STREAM | SOCK_NONBLOCK | SOCK_CLOEXEC) == Some(tcp_scheme()),
        socket_flags(SOCK_STREAM | SOCK_NONBLOCK | SOCK_CLOEXEC) == O_RDWR | O_NONBLOCK
            | O_CLOEXEC,
{
    assert(1i32 & !0o4000i32 & !0o2000000i32 == 1i32) by (bit_vector);
    assert(2i32 & !0o4000i32 & !0o2000000i32 == 2i32) by (bit_vector);
    assert(1i32 & 0o4000i32 != 0o4000i32) by (bit_vector);
    assert(1i32 & 0o2000000i32 != 0o2000000i32) by (bit_vector);
    assert(2i32 & 0o4000i32 != 0o4000i32) by (bit_vector);
    assert(2i32 & 0o2000000i32 != 0o2000000i32) by (bit_vector);
    assert(0x0003_0000usize | 0usize | 0usize == 0x0003_0000usize) by (bit_vector);
    assert((1i32 | 0o4000i32 | 0o2000000i32) & !0o4000i32 & !0o2000000i32 == 1i32)
        by (bit_vector);
    assert((1i32 | 0o4000i32 | 0o2000000i32) & 0o4000i32 == 0o4000i32) by (bit_vector);
    assert((1i32 | 0o4000i32 | 0o2000000i32) & 0o2000000i32 == 0o2000000i32) by (bit_vector);
}

/// What creating a socket does. Another family than `AF_INET`, a protocol
/// other than 0, and a type that is neither stream nor datagram are refused,
/// in this order, before the kernel is asked anything. Otherwise the root of
/// the type's scheme is opened, and the descriptor or the failure of that
/// one call is the result.
pub open spec fn creates_socket(
    domain: c_int,
    kind: c_int,
    protocol: c_int,
    errno: c_int,
    added: Seq<Event>,
    ret: c_int,
    errno_after_all: c_int,
) -> bool {
    if domain != AF_INET {
        added.len() == 0 && ret == -1 && errno_after_all == EAFNOSUPPORT
    } else if protocol != 0 {
        added.len() == 0 && ret == -1 && errno_after_all == EPROTONOSUPPORT
    } else {
        match socket_scheme(kind) {
            None => added.len() == 0 && ret == -1 && errno_after_all == EPROTOTYPE,
            Some(scheme) => {
                &&& added.len() == 1
                &&& added[0].call == Call::Open { path: scheme, flags: socket_flags(kind) }
                &&& ret == sentinel(added[0].result) as c_int
                &&& errno_after_all == errno_after(errno, added[0].result)
            },
        }
    }
}

/// Creates a socket of the family `domain` and the type `kind`.
pub fn socket<K: Native>(sys: &mut Sys<K>, domain: c_int, kind: c_int, protocol: c_int) -> (ret:
    c_int)
    ensures
        final(sys).continues(*old(sys)),
        final(sys).added(*old(sys)).len() == 0 ==> final(sys).held() == old(sys).held(),
        creates_socket(
            domain,
            kind,
            protocol,
            old(sys).errno(),
            final(sys).added(*old(sys)),
            ret,
            final(sys).errno(),
        ),
{
    if domain != AF_INET {
        sys.set_errno(EAFNOSUPPORT);
        assert(sys.added(*old(sys)) =~= Seq::<Event>::empty());
        return -1;
    }
    if protocol != 0 {
        sys.set_errno(EPROTONOSUPPORT);
        assert(sys.added(*old(sys)) =~= Seq::<Event>::empty());
        return -1;
    }
    let nonblocking: usize = if kind & SOCK_NONBLOCK == SOCK_NONBLOCK {
        O_NONBLOCK
    } else {
        0
    };
    let closing: usize = if kind & SOCK_CLOEXEC == SOCK_CLOEXEC {
        O_CLOEXEC
    } else {
        0
    };
    let flags = O_RDWR | nonblocking | closing;
    let kind = kind & !SOCK_NONBLOCK & !SOCK_CLOEXEC;
    if kind == SOCK_STREAM {
        let scheme: [u8; 4] = [116, 99, 112, 58];
        assert(scheme@ =~= tcp_scheme());
        let opened = sys.native_open(&scheme, flags);
        assert(sys.added(*old(sys)) =~= seq![sys.trace().last()]);
        e(sys, opened) as c_int
    } else if kind == SOCK_DGRAM {
        let scheme: [u8; 4] = [117, 100, 112, 58];
        assert(scheme@ =~= udp_scheme());
        let opened = sys.native_open(&scheme, flags);
        assert(sys.added(*old(sys)) =~= seq![sys.trace().last()]);
        e(sys, opened) as c_int
    } else {
        sys.set_errno(EPROTOTYPE);
        assert(sys.added(*old(sys)) =~= Seq::<Event>::empty());
        -1
    }
}

/// What accepting a connection does. The listening socket is duplicated
/// with the parameter `listen`. If that yields a descriptor and the caller
/// asked for the peer (`wanted`), the remote name of the new descriptor is
/// looked up, by one more call; a failed lookup fails the whole call, and
/// the new descriptor stays open. A caller who did not ask causes no lookup.
pub open spec fn accepts(
    socket: c_int,
    wanted: bool,
    data: Seq<u8>,
    len: socklen_t,
    errno: c_int,
    added: Seq<Event>,
    ret: c_int,
    data_after: Seq<u8>,
    len_after: socklen_t,
    errno_after_all: c_int,
) -> bool {
    let stream = sentinel(added[0].result) as c_int;
    let errno_then = errno_after(errno, added[0].result);
    &&& added.len() >= 1
    &&& added[0].call == Call::Dup { fd: socket as usize, param: listen_parameter() }
    &&& if stream < 0 || !wanted {
        &&& added.len() == 1
        &&& ret == if stream < 0 {
            -1 as c_int
        } else {
            stream
        }
        &&& data_after == data
        &&& len_after == len
        &&& errno_after_all == errno_then
    } else {
        let found = lookup(false, data, len, errno_then, added[1]);
        &&& added.len() == 2
        &&& queries_path(added[1], stream)
        &&& ret == if found.ret < 0 {
            -1 as c_int
        } else {
            stream
        }
        &&& data_after == found.data
        &&& len_after == found.len
        &&& errno_after_all == found.errno
    }
}

/// Accepts a connection on the listening socket `socket`. The name of the
/// peer is looked up only if both `address` and `address_len` are given.
pub fn accept<K: Native>(
    sys: &mut Sys<K>,
    socket: c_int,
    address: Option<&mut SockAddr>,
    address_len: Option<&mut socklen_t>,
) -> (ret: c_int)
    ensures
        final(sys).continues(*old(sys)),
        final(sys).added(*old(sys)).len() == 0 ==> final(sys).held() == old(sys).held(),
        match (address, address_len) {
            (Some(a), Some(l)) => {
                &&& final(a).sa_family == a.sa_family
                &&& accepts(
                    socket,
                    true,
                    a.data@,
                    *l,
                    old(sys).errno(),
                    final(sys).added(*old(sys)),
                    ret,
                    final(a).data@,
                    *final(l),
                    final(sys).errno(),
                )
            },
            (Some(a), None) => {
                &&& *final(a) == *a
                &&& accepts(
                    socket,
                    false,
                    a.data@,
                    0,
                    old(sys).errno(),
                    final(sys).added(*old(sys)),
                    ret,
                    a.data@,
                    0,
                    final(sys).errno(),
                )
            },
            (None, Some(l)) => {
                &&& *final(l) == *l
                &&& accepts(
                    socket,
                    false,
                    Seq::<u8>::empty(),
                    *l,
                    old(sys).errno(),
                    final(sys).added(*old(sys)),
                    ret,
                    Seq::<u8>::empty(),
                    *l,
                    final(sys).errno(),
                )
            },
            (None, None) => accepts(
                socket,
                false,
                Seq::<u8>::empty(),
                0,
                old(sys).errno(),
                final(sys).added(*old(sys)),
                ret,
                Seq::<u8>::empty(),
                0,
                final(sys).errno(),
            ),
        },
{
    let parameter: [u8; 6] = [108, 105, 115, 116, 101, 110];
    assert(parameter@ =~= listen_parameter());
    let duplicated = sys.native_dup(socket as usize, &parameter);
    let ghost first = sys.trace().last();
    let stream = e(sys, duplicated) as c_int;
    assert(sys.added(*old(sys)) =~= seq![first]);
    if stream < 0 {
        return -1;
    }
    match (address, address_len) {
        (Some(a), Some(l)) => {
            let found = getpeername(sys, stream, a, l);
            assert(sys.added(*old(sys)) =~= seq![first, sys.trace().last()]);
            if found < 0 {
                return -1;
            }
        },
        _ => {},
    }
    stream
}

/// Marks `socket` as listening. The scheme keeps the backlog itself, so
/// there is nothing to do: the kernel is not asked anything.
pub fn listen<K: Native>(sys: &mut Sys<K>, socket: c_int, backlog: c_int) -> (ret: c_int)
    ensures
        ret == 0,
        *final(sys) == *old(sys),
{
    0
}

/// What receiving does. Flags are not supported and are refused before the
/// kernel is asked anything. If the caller asked for the sender (`wanted`),
/// the remote name of the socket is looked up first, and a failed lookup
/// fails the call before anything is read. Then the socket is read once
/// into the caller's buffer.
pub open spec fn receives(
    socket: c_int,
    buf: Seq<u8>,
    flags: c_int,
    wanted: bool,
    data: Seq<u8>,
    len: socklen_t,
    errno: c_int,
    added: Seq<Event>,
    ret: ssize_t,
    buf_after: Seq<u8>,
    data_after: Seq<u8>,
    len_after: socklen_t,
    errno_after_all: c_int,
) -> bool {
    if flags != 0 {
        &&& added.len() == 0
        &&& ret == -1
        &&& errno_after_all == EOPNOTSUPP
        &&& buf_after == buf
        &&& data_after == data
        &&& len_after == len
    } else if wanted {
        let found = lookup(false, data, len, errno, added[0]);
        &&& added.len() >= 1
        &&& queries_path(added[0], socket)
        &&& data_after == found.data
        &&& len_after == found.len
        &&& if found.ret < 0 {
            &&& added.len() == 1
            &&& ret == -1
            &&& errno_after_all == found.errno
            &&& buf_after == buf
        } else {
            &&& added.len() == 2
            &&& reads(socket, buf, found.errno, added[1], ret, buf_after, errno_after_all)
        }
    } else {
        &&& added.len() == 1
        &&& reads(socket, buf, errno, added[0], ret, buf_after, errno_after_all)
        &&& data_after == data
        &&& len_after == len
    }
}

/// One read of `socket` into a buffer that held `buf`.
pub open spec fn reads(
    socket: c_int,
    buf: Seq<u8>,
    errno: c_int,
    event: Event,
    ret: ssize_t,
    buf_after: Seq<u8>,
    errno_after_all: c_int,
) -> bool {
    &&& event.call == Call::Read { fd: socket as usize, buf }
    &&& buf_after == event.output.bytes()
    &&& ret == sentinel(event.result) as ssize_t
    &&& errno_after_all == errno_after(errno, event.result)
}

/// Receives from the connected socket `socket` into `buf`. The name of the
/// sender is looked up only if both `address` and `address_len` are given.
pub fn recvfrom<K: Native>(
    sys: &mut Sys<K>,
    socket: c_int,
    buf: &mut [u8],
    flags: c_int,
    address: Option<&mut SockAddr>,
    address_len: Option<&mut socklen_t>,
) -> (ret: ssize_t)
    ensures
        final(sys).continues(*old(sys)),
        final(sys).added(*old(sys)).len() == 0 ==> final(sys).held() == old(sys).held(),
        match (address, address_len) {
            (Some(a), Some(l)) => {
                &&& final(a).sa_family == a.sa_family
                &&& receives(
                    socket,
                    old(buf)@,
                    flags,
                    true,
                    a.data@,
                    *l,
                    old(sys).errno(),
                    final(sys).added(*old(sys)),
                    ret,
                    final(buf)@,
                    final(a).data@,
                    *final(l),
                    final(sys).errno(),
                )
            },
            (Some(a), None) => {
                &&& *final(a) == *a
                &&& receives(
                    socket,
                    old(buf)@,
                    flags,
                    false,
                    a.data@,
                    0,
                    old(sys).errno(),
                    final(sys).added(*old(sys)),
                    ret,
                    final(buf)@,
                    a.data@,
                    0,
                    final(sys).errno(),
                )
            },
            (None, Some(l)) => {
                &&& *final(l) == *l
                &&& receives(
                    socket,
                    old(buf)@,
                    flags,
                    false,
                    Seq::<u8>::empty(),
                    *l,
                    old(sys).errno(),
                    final(sys).added(*old(sys)),
                    ret,
                    final(buf)@,
                    Seq::<u8>::empty(),
                    *l,
                    final(sys).errno(),
                )
            },
            (None, None) => receives(
                socket,
                old(buf)@,
                flags,
                false,
                Seq::<u8>::empty(),
                0,
                old(sys).errno(),
                final(sys).added(*old(sys)),
                ret,
                final(buf)@,
                Seq::<u8>::empty(),
                0,
                final(sys).errno(),
            ),
        },
{
    if flags != 0 {
        sys.set_errno(EOPNOTSUPP);
        assert(sys.added(*old(sys)) =~= Seq::<Event>::empty());
        return -1;
    }
    let ghost mut looked = false;
    match (address, address_len) {
        (Some(a), Some(l)) => {
            let found = getpeername(sys, socket, a, l);
            if found < 0 {
                assert(sys.added(*old(sys)) =~= seq![sys.trace().last()]);
                return -1;
            }
            proof {
                looked = true;
            }
        },
        _ => {},
    }
    let ghost first = sys.trace().last();
    let ret = crate::file::read(sys, socket, buf);
    proof {
        if looked {
            assert(sys.added(*old(sys)) =~= seq![first, sys.trace().last()]);
        } else {
            assert(sys.added(*old(sys)) =~= seq![sys.trace().last()]);
        }
    }
    ret
}

/// What sending does. A destination is refused, since the socket is
/// connected, and so are flags, in this order and before the kernel is
/// asked anything. Otherwise the buffer is written to the socket once.
pub open spec fn sends(
    socket: c_int,
    buf: Seq<u8>,
    flags: c_int,
    addressed: bool,
    errno: c_int,
    added: Seq<Event>,
    ret: ssize_t,
    errno_after_all: c_int,
) -> bool {
    if addressed {
        added.len() == 0 && ret == -1 && errno_after_all == EISCONN
    } else if flags != 0 {
        added.len() == 0 && ret == -1 && errno_after_all == EOPNOTSUPP
    } else {
        &&& added.len() == 1
        &&& added[0].call == Call::Write { fd: socket as usize, buf }
        &&& ret == sentinel(added[0].result) as ssize_t
        &&& errno_after_all == errno_after(errno, added[0].result)
    }
}

/// Sends `buf` on the connected socket `socket`. A destination counts as
/// given if `dest_addr` is there or `dest_len` is not 0.
pub fn sendto<K: Native>(
    sys: &mut Sys<K>,
    socket: c_int,
    buf: &[u8],
    flags: c_int,
    dest_addr: Option<&SockAddr>,
    dest_len: socklen_t,
) -> (ret: ssize_t)
    ensures
        final(sys).continues(*old(sys)),
        final(sys).added(*old(sys)).len() == 0 ==> final(sys).held() == old(sys).held(),
        sends(
            socket,
            buf@,
            flags,
            dest_addr is Some || dest_len != 0,
            old(sys).errno(),
            final(sys).added(*old(sys)),
            ret,
            final(sys).errno(),
        ),
{
    if dest_addr.is_some() || dest_len != 0 {
        sys.set_errno(EISCONN);
        assert(sys.added(*old(sys)) =~= Seq::<Event>::empty());
        return -1;
    }
    if flags != 0 {
        sys.set_errno(EOPNOTSUPP);
        assert(sys.added(*old(sys)) =~= Seq::<Event>::empty());
        return -1;
    }
    let ret = crate::file::write(sys, socket, buf);
    assert(sys.added(*old(sys)) =~= seq![sys.trace().last()]);
    ret
}

/// The descriptor that diagnostics are written to.
pub const DIAGNOSTICS: c_int = 2;

/// The text `getsockopt`.
pub open spec fn getsockopt_name() -> Seq<u8> {
    seq![103u8, 101u8, 116u8, 115u8, 111u8, 99u8, 107u8, 111u8, 112u8, 116u8]
}

/// The text `setsockopt`.
pub open spec fn setsockopt_name() -> Seq<u8> {
    seq![115u8, 101u8, 116u8, 115u8, 111u8, 99u8, 107u8, 111u8, 112u8, 116u8]
}

/// The text `shutdown`.
pub open spec fn shutdown_name() -> Seq<u8> {
    seq![115u8, 104u8, 117u8, 116u8, 100u8, 111u8, 119u8, 110u8]
}

/// The text `socketpair`.
pub open spec fn socketpair_name() -> Seq<u8> {
    seq![115u8, 111u8, 99u8, 107u8, 101u8, 116u8, 112u8, 97u8, 105u8, 114u8]
}

/// What a call that is not implemented does: it writes one diagnostic to
/// the descriptor for diagnostics and fails. `errno` says nothing about
/// the failure: it changes only if the writing failed.
pub open spec fn refuses<K: Native>(
    before: Sys<K>,
    after: Sys<K>,
    name: Seq<u8>,
    numbers: Seq<i64>,
    ret: c_int,
) -> bool {
    &&& after.forwarded(
        before,
        Call::Write { fd: DIAGNOSTICS as usize, buf: diagnostic(name, numbers) },
    )
    &&& ret == -1
}

fn unimplemented<K: Native>(sys: &mut Sys<K>, name: &[u8], numbers: &[i64]) -> (ret: c_int)
    ensures
        refuses(*old(sys), *final(sys), name@, numbers@, ret),
{
    let line = diagnostic_line(name, numbers);
    let _ = crate::file::write(sys, DIAGNOSTICS, line.as_slice());
    -1
}

/// Reading a socket option is not implemented. The diagnostic names the
/// socket, the level and the option; the caller's buffer and length are
/// left alone.
pub fn getsockopt<K: Native>(
    sys: &mut Sys<K>,
    socket: c_int,
    level: c_int,
    option_name: c_int,
    option_value: &mut [u8],
    option_len: &mut socklen_t,
) -> (ret: c_int)
    ensures
        refuses(
            *old(sys),
            *final(sys),
            getsockopt_name(),
            seq![socket as i64, level as i64, option_name as i64],
            ret,
        ),
        final(option_value)@ == old(option_value)@,
        *final(option_len) == *old(option_len),
{
    let name: [u8; 10] = [103, 101, 116, 115, 111, 99, 107, 111, 112, 116];
    assert(name@ =~= getsockopt_name());
    let numbers: [i64; 3] = [socket as i64, level as i64, option_name as i64];
    assert(numbers@ =~= seq![socket as i64, level as i64, option_name as i64]);
    unimplemented(sys, &name, &numbers)
}

/// Setting a socket option is not implemented. The diagnostic names the
/// socket, the level, the option and the length of its value.
pub fn setsockopt<K: Native>(
    sys: &mut Sys<K>,
    socket: c_int,
    level: c_int,
    option_name: c_int,
    option_value: &[u8],
    option_len: socklen_t,
) -> (ret: c_int)
    ensures
        refuses(
            *old(sys),
            *final(sys),
            setsockopt_name(),
            seq![socket as i64, level as i64, option_name as i64, option_len as i64],
            ret,
        ),
{
    let name: [u8; 10] = [115, 101, 116, 115, 111, 99, 107, 111, 112, 116];
    assert(name@ =~= setsockopt_name());
    let numbers: [i64; 4] = [socket as i64, level as i64, option_name as i64, option_len as i64];
    assert(numbers@ =~= seq![
        socket as i64,
        level as i64,
        option_name as i64,
        option_len as i64,
    ]);
    unimplemented(sys, &name, &numbers)
}

/// Shutting down one direction of a socket is not implemented. The
/// diagnostic names the socket and the direction.
pub fn shutdown<K: Native>(sys: &mut Sys<K>, socket: c_int, how: c_int) -> (ret: c_int)
    ensures
        refuses(*old(sys), *final(sys), shutdown_name(), seq![socket as i64, how as i64], ret),
{
    let name: [u8; 8] = [115, 104, 117, 116, 100, 111, 119, 110];
    assert(name@ =~= shutdown_name());
    let numbers: [i64; 2] = [socket as i64, how as i64];
    assert(numbers@ =~= seq![socket as i64, how as i64]);
    unimplemented(sys, &name, &numbers)
}

/// Creating a pair of connected sockets is not implemented. The diagnostic
/// names the family, the type and the protocol; the caller's pair is left
/// alone.
pub fn socketpair<K: Native>(
    sys: &mut Sys<K>,
    domain: c_int,
    kind: c_int,
    protocol: c_int,
    socket_vector: &mut [c_int; 2],
) -> (ret: c_int)
    ensures
        refuses(
            *old(sys),
            *final(sys),
            socketpair_name(),
            seq![domain as i64, kind as i64, protocol as i64],
            ret,
        ),
        *final(socket_vector) == *old(socket_vector),
{
    let name: [u8; 10] = [115, 111, 99, 107, 101, 116, 112, 97, 105, 114];
    assert(name@ =~= socketpair_name());
    let numbers: [i64; 3] = [domain as i64, kind as i64, protocol as i64];
    assert(numbers@ =~= seq![domain as i64, kind as i64, protocol as i64]);
    unimplemented(sys, &name, &numbers)
}

/// A socket of another family than `AF_INET` is not created: the call
/// fails with "address family not supported", and the kernel is not asked
/// anything.
pub proof fn other_family_gets_no_socket(
    domain: c_int,
    kind: c_int,
    protocol: c_int,
    errno: c_int,
    added: Seq<Event>,
    ret: c_int,
    errno_after_all: c_int,
)
    requires
        domain != AF_INET,
        creates_socket(domain, kind, protocol, errno, added, ret, errno_after_all),
    ensures
        added =~= Seq::<Event>::empty(),
        ret == -1,
        errno_after_all == EAFNOSUPPORT,
{
}

/// An address of another family than `AF_INET` is neither bound nor
/// dialled: the call fails with "address family not supported", and the
/// kernel is not asked anything.
pub proof fn other_family_is_not_dialled(
    listening: bool,
    socket: c_int,
    address: SockAddr,
    address_len: socklen_t,
    errno: c_int,
    added: Seq<Event>,
    ret: c_int,
    errno_after_all: c_int,
)
    requires
        address.sa_family as c_int != AF_INET,
        dials(listening, socket, address, address_len, errno, added, ret, errno_after_all),
    ensures
        added =~= Seq::<Event>::empty(),
        ret == -1,
        errno_after_all == EAFNOSUPPORT,
{
}

/// The number of path queries among `events`.
pub open spec fn path_queries(events: Seq<Event>) -> nat
    decreases events.len(),
{
    if events.len() == 0 {
        0
    } else {
        path_queries(events.drop_last()) + if events.last().call is Fpath {
            1nat
        } else {
            0nat
        }
    }
}

/// Accepting a connection without asking for the peer queries no path.
/// Asking for the peer queries exactly one, that of the accepted
/// descriptor, and none if no descriptor was accepted.
pub proof fn accept_looks_up_once(
    socket: c_int,
    wanted: bool,
    data: Seq<u8>,
    len: socklen_t,
    errno: c_int,
    added: Seq<Event>,
    ret: c_int,
    data_after: Seq<u8>,
    len_after: socklen_t,
    errno_after_all: c_int,
)
    requires
        accepts(
            socket,
            wanted,
            data,
            len,
            errno,
            added,
            ret,
            data_after,
            len_after,
            errno_after_all,
        ),
    ensures
        !wanted ==> path_queries(added) == 0,
        wanted ==> path_queries(added) == (if (sentinel(added[0].result) as c_int) < 0 {
            0nat
        } else {
            1nat
        }),
        path_queries(added) == 1 ==> queries_path(added[1], sentinel(added[0].result) as c_int),
{
    let first = added.take(1);
    assert(first.drop_last() =~= Seq::<Event>::empty());
    assert(path_queries(first.drop_last()) == 0);
    assert(first.last() == added[0]);
    assert(path_queries(first) == 0);
    if added.len() == 1 {
        assert(first =~= added);
    } else {
        assert(added.drop_last() =~= first);
    }
}

/// The address that `accept` hands out on success is the text of the remote
/// end as the accepted descriptor's path gives it: what stands between the
/// scheme and the first `/`, as far as it fits into the payload.
pub proof fn accepted_peer_is_remote_name(
    socket: c_int,
    data: Seq<u8>,
    len: socklen_t,
    errno: c_int,
    added: Seq<Event>,
    ret: c_int,
    data_after: Seq<u8>,
    len_after: socklen_t,
    errno_after_all: c_int,
)
    requires
        accepts(socket, true, data, len, errno, added, ret, data_after, len_after, errno_after_all),
        ret >= 0,
    ensures
        added.len() == 2,
        added[1].result is Ok,
        sentinel(added[1].result) <= added[1].output.bytes().len(),
        has_socket_scheme(reported_path(added[1])),
        data_after == name_written(data, until_slash(reported_path(added[1]).skip(4))),
        len_after == name_len(data, until_slash(reported_path(added[1]).skip(4))) as socklen_t,
{
}

/// The path that a path query reported: the bytes of the buffer that the
/// kernel's answer counts.
pub open spec fn reported_path(event: Event) -> Seq<u8> {
    event.output.bytes().take(sentinel(event.result) as int)
}

/// The text that follows the first `/` of a socket's path, up to the next
/// `/`: the name of the local end.
pub open spec fn after_first_slash(path: Seq<u8>) -> Seq<u8> {
    until_slash(path.skip(4).skip(position(path.skip(4), SLASH) + 1))
}

/// Where the path of the accepted descriptor names both ends alike, the
/// address that `accept` hands out on success is also the text that
/// follows the first `/` of that path.
pub proof fn accepted_peer_where_ends_agree(
    socket: c_int,
    data: Seq<u8>,
    len: socklen_t,
    errno: c_int,
    added: Seq<Event>,
    ret: c_int,
    data_after: Seq<u8>,
    len_after: socklen_t,
    errno_after_all: c_int,
)
    requires
        accepts(socket, true, data, len, errno, added, ret, data_after, len_after, errno_after_all),
        ret >= 0,
        added.len() == 2 ==> until_slash(reported_path(added[1]).skip(4)) == after_first_slash(
            reported_path(added[1]),
        ),
    ensures
        added.len() == 2,
        data_after == name_written(data, after_first_slash(reported_path(added[1]))),
        len_after == name_len(data, after_first_slash(reported_path(added[1]))) as socklen_t,
{
    accepted_peer_is_remote_name(
        socket,
        data,
        len,
        errno,
        added,
        ret,
        data_after,
        len_after,
        errno_after_all,
    );
}

} // verus!
