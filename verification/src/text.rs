//! The texts that stand for socket endpoints and environment variables.
//!
//! A socket is dialled or bound by duplicating its descriptor with a text
//! parameter, `a.b.c.d:port`, that begins with `/` for a local endpoint. The
//! network service names an open socket by the path `tcp:remote/local` or
//! `udp:remote/local`. An environment entry has the form `NAME=value`.

use vstd::prelude::*;

verus! {

/// The byte ` `.
pub const SPACE: u8 = 32;

/// The byte `(`.
pub const OPEN_PAREN: u8 = 40;

/// The byte `)`.
pub const CLOSE_PAREN: u8 = 41;

/// The byte `,`.
pub const COMMA: u8 = 44;

/// The byte `-`.
pub const MINUS: u8 = 45;

/// The byte `.`.
pub const DOT: u8 = 46;

/// The byte `/`.
pub const SLASH: u8 = 47;

/// The byte `:`.
pub const COLON: u8 = 58;

/// The byte `=`.
pub const EQUALS: u8 = 61;

/// The text `tcp:`.
pub open spec fn tcp_scheme() -> Seq<u8> {
    seq![116u8, 99u8, 112u8, 58u8]
}

/// The text `udp:`.
pub open spec fn udp_scheme() -> Seq<u8> {
    seq![117u8, 100u8, 112u8, 58u8]
}

/// The text `env:`.
pub open spec fn env_scheme() -> Seq<u8> {
    seq![101u8, 110u8, 118u8, 58u8]
}

/// The text `listen`.
pub open spec fn listen_parameter() -> Seq<u8> {
    seq![108u8, 105u8, 115u8, 116u8, 101u8, 110u8]
}

/// The decimal digits of `n`, most significant first, without leading zeros.
pub open spec fn decimal(n: nat) -> Seq<u8>
    decreases n,
{
    if n < 10 {
        seq![(48 + n) as u8]
    } else {
        decimal(n / 10).push((48 + n % 10) as u8)
    }
}

/// The port that an address payload holds: its first two bytes, the more
/// significant one first.
pub open spec fn port_of(data: Seq<u8>) -> nat {
    (data[0] * 256 + data[1]) as nat
}

/// The text `a.b.c.d:port` of the endpoint that an address payload holds.
pub open spec fn endpoint(data: Seq<u8>) -> Seq<u8> {
    decimal(data[2] as nat) + seq![DOT] + decimal(data[3] as nat) + seq![DOT] + decimal(
        data[4] as nat,
    ) + seq![DOT] + decimal(data[5] as nat) + seq![COLON] + decimal(port_of(data))
}

/// The duplication parameter for an endpoint: the endpoint's text, after a
/// `/` when the endpoint is to be listened on rather than dialled.
pub open spec fn dial_parameter_of(listening: bool, data: Seq<u8>) -> Seq<u8> {
    if listening {
        seq![SLASH] + endpoint(data)
    } else {
        endpoint(data)
    }
}

/// The decimal text of an integer: a `-` stands before the digits of a
/// negative one.
pub open spec fn signed_decimal(n: int) -> Seq<u8> {
    if n < 0 {
        seq![MINUS] + decimal((-n) as nat)
    } else {
        decimal(n as nat)
    }
}

/// The decimal texts of `numbers`, with `, ` between them.
pub open spec fn listed(numbers: Seq<i64>) -> Seq<u8>
    decreases numbers.len(),
{
    if numbers.len() == 0 {
        Seq::empty()
    } else if numbers.len() == 1 {
        signed_decimal(numbers[0] as int)
    } else {
        listed(numbers.drop_last()) + seq![COMMA, SPACE] + signed_decimal(numbers.last() as int)
    }
}

/// The text `unimplemented: `.
pub open spec fn unimplemented_text() -> Seq<u8> {
    seq![
        117u8,
        110u8,
        105u8,
        109u8,
        112u8,
        108u8,
        101u8,
        109u8,
        101u8,
        110u8,
        116u8,
        101u8,
        100u8,
        58u8,
        32u8,
    ]
}

/// The diagnostic for a call that is not implemented:
/// `unimplemented: name(n1, n2)`.
pub open spec fn diagnostic(name: Seq<u8>, numbers: Seq<i64>) -> Seq<u8> {
    unimplemented_text() + name + seq![OPEN_PAREN] + listed(numbers) + seq![CLOSE_PAREN]
}

/// The index of the first `byte` in `s`, or the length of `s` if there is
/// none.
pub open spec fn position(s: Seq<u8>, byte: u8) -> int
    decreases s.len(),
{
    if s.len() == 0 {
        0
    } else if s[0] == byte {
        0
    } else {
        1 + position(s.skip(1), byte)
    }
}

/// What precedes the first `/` of `s`: all of `s` if it holds none.
pub open spec fn until_slash(s: Seq<u8>) -> Seq<u8> {
    s.take(position(s, SLASH))
}

/// Whether a path begins with the name of a socket scheme.
pub open spec fn has_socket_scheme(path: Seq<u8>) -> bool {
    path.len() >= 4 && (path.take(4) == tcp_scheme() || path.take(4) == udp_scheme())
}

/// The name of one end of a socket, taken from the socket's path
/// `tcp:remote/local`: the text between the scheme and the first `/` for the
/// remote end, the text between the first `/` and the second for the local
/// end. `None` where the path has no socket scheme, or no `/` when the local
/// end is asked for.
pub open spec fn socket_name_of(local: bool, path: Seq<u8>) -> Option<Seq<u8>> {
    if !has_socket_scheme(path) {
        None
    } else {
        let body = path.skip(4);
        let slash = position(body, SLASH);
        if !local {
            Some(until_slash(body))
        } else if slash < body.len() {
            Some(until_slash(body.skip(slash + 1)))
        } else {
            None
        }
    }
}

/// Where the value of an environment entry begins: one past the first `=`,
/// if there is one and a name stands before it.
pub open spec fn variable_of(entry: Seq<u8>) -> Option<int> {
    let sep = position(entry, EQUALS);
    if 0 < sep < entry.len() {
        Some(sep + 1)
    } else {
        None
    }
}

/// The name of a well-formed environment entry.
pub open spec fn variable_name(entry: Seq<u8>) -> Seq<u8> {
    entry.take(position(entry, EQUALS))
}

/// The value of a well-formed environment entry; it may be empty.
pub open spec fn variable_value(entry: Seq<u8>) -> Seq<u8> {
    entry.skip(position(entry, EQUALS) + 1)
}

/// The path under which the environment scheme holds a variable.
pub open spec fn variable_path(entry: Seq<u8>) -> Seq<u8> {
    env_scheme() + variable_name(entry)
}

/// `position` is within bounds, nothing before it is `byte`, and `byte`
/// stands at it unless it is the length.
pub proof fn lemma_position(s: Seq<u8>, byte: u8)
    ensures
        0 <= position(s, byte) <= s.len(),
        forall|j: int| 0 <= j < position(s, byte) ==> s[j] != byte,
        position(s, byte) < s.len() ==> s[position(s, byte)] == byte,
    decreases s.len(),
{
    if s.len() > 0 && s[0] != byte {
        let rest = s.skip(1);
        lemma_position(rest, byte);
        assert forall|j: int| 0 <= j < position(s, byte) implies s[j] != byte by {
            if j > 0 {
                assert(s[j] == rest[j - 1]);
            }
        }
        if position(s, byte) < s.len() {
            assert(s[position(s, byte)] == rest[position(rest, byte)]);
        }
    }
}

/// An index that nothing equal to `byte` precedes, and that holds `byte`
/// or is the length, is the position of `byte`.
pub proof fn lemma_position_unique(s: Seq<u8>, byte: u8, i: int)
    requires
        0 <= i <= s.len(),
        forall|j: int| 0 <= j < i ==> s[j] != byte,
        i < s.len() ==> s[i] == byte,
    ensures
        position(s, byte) == i,
{
    lemma_position(s, byte);
    let p = position(s, byte);
    if p < i {
        assert(s[p] == byte);
    } else if i < p {
        assert(s[i] != byte);
    }
}

/// The index of the first `byte` in `s`, or its length.
pub fn find(s: &[u8], byte: u8) -> (i: usize)
    ensures
        i == position(s@, byte),
        i <= s@.len(),
{
    let mut i: usize = 0;
    while i < s.len() && s[i] != byte
        invariant
            i <= s.len(),
            forall|j: int| 0 <= j < i ==> s@[j] != byte,
        decreases s.len() - i,
    {
        i += 1;
    }
    proof {
        lemma_position_unique(s@, byte, i as int);
    }
    i
}

/// Appends the decimal digits of `n`.
pub fn push_decimal(out: &mut Vec<u8>, n: u64)
    ensures
        final(out)@ == old(out)@ + decimal(n as nat),
    decreases n,
{
    if n >= 10 {
        push_decimal(out, n / 10);
    }
    out.push(48 + (n % 10) as u8);
    proof {
        assert(out@ =~= old(out)@ + decimal(n as nat));
    }
}

/// Appends the decimal text of `n`.
pub fn push_signed(out: &mut Vec<u8>, n: i64)
    ensures
        final(out)@ == old(out)@ + signed_decimal(n as int),
{
    if n < 0 {
        out.push(MINUS);
        let magnitude: u64 = (-(n + 1)) as u64 + 1;
        push_decimal(out, magnitude);
        proof {
            assert(out@ =~= old(out)@ + signed_decimal(n as int));
        }
    } else {
        push_decimal(out, n as u64);
    }
}

/// The diagnostic text for the call `name` with the integer arguments
/// `numbers`.
pub fn diagnostic_line(name: &[u8], numbers: &[i64]) -> (line: Vec<u8>)
    ensures
        line@ == diagnostic(name@, numbers@),
{
    let head: [u8; 15] = [117, 110, 105, 109, 112, 108, 101, 109, 101, 110, 116, 101, 100, 58, 32];
    assert(head@ =~= unimplemented_text());
    let mut line: Vec<u8> = Vec::new();
    line.extend_from_slice(&head);
    line.extend_from_slice(name);
    line.push(OPEN_PAREN);
    let ghost front = line@;
    let mut i: usize = 0;
    assert(numbers@.take(0) =~= Seq::<i64>::empty());
    while i < numbers.len()
        invariant
            i <= numbers.len(),
            front == unimplemented_text() + name@ + seq![OPEN_PAREN],
            line@ == front + listed(numbers@.take(i as int)),
        decreases numbers.len() - i,
    {
        let ghost so_far = line@;
        if i > 0 {
            line.push(COMMA);
            line.push(SPACE);
        }
        push_signed(&mut line, numbers[i]);
        proof {
            let now = numbers@.take(i + 1);
            assert(now.drop_last() =~= numbers@.take(i as int));
            assert(now.last() == numbers@[i as int]);
            assert(line@ =~= front + listed(now));
        }
        i += 1;
    }
    assert(numbers@.take(i as int) =~= numbers@);
    line.push(CLOSE_PAREN);
    line
}

/// The duplication parameter that dials the endpoint in `data`, or that
/// listens on it.
pub fn dial_parameter(listening: bool, data: &[u8; 14]) -> (param: Vec<u8>)
    ensures
        param@ == dial_parameter_of(listening, data@),
{
    let mut param: Vec<u8> = Vec::new();
    if listening {
        param.push(SLASH);
    }
    let port: u64 = data[0] as u64 * 256 + data[1] as u64;
    push_decimal(&mut param, data[2] as u64);
    param.push(DOT);
    push_decimal(&mut param, data[3] as u64);
    param.push(DOT);
    push_decimal(&mut param, data[4] as u64);
    param.push(DOT);
    push_decimal(&mut param, data[5] as u64);
    param.push(COLON);
    push_decimal(&mut param, port);
    proof {
        assert(param@ =~= dial_parameter_of(listening, data@));
    }
    param
}

/// Copies `s[from..to]` into a vector of its own.
pub fn copy_range(s: &[u8], from: usize, to: usize) -> (part: Vec<u8>)
    requires
        from <= to <= s@.len(),
    ensures
        part@ == s@.subrange(from as int, to as int),
{
    let mut part: Vec<u8> = Vec::new();
    let mut i: usize = from;
    while i < to
        invariant
            from <= i <= to <= s@.len(),
            part@ == s@.subrange(from as int, i as int),
        decreases to - i,
    {
        part.push(s[i]);
        proof {
            assert(part@ =~= s@.subrange(from as int, i + 1));
        }
        i += 1;
    }
    part
}

/// Whether `path` begins with `tcp:` or `udp:`.
pub fn is_socket_path(path: &[u8]) -> (yes: bool)
    ensures
        yes == has_socket_scheme(path@),
{
    if path.len() < 4 {
        return false;
    }
    let tcp = path[0] == 116 && path[1] == 99 && path[2] == 112 && path[3] == 58;
    let udp = path[0] == 117 && path[1] == 100 && path[2] == 112 && path[3] == 58;
    proof {
        let head = path@.take(4);
        assert(head.len() == 4);
        assert(head[0] == path@[0] && head[1] == path@[1] && head[2] == path@[2] && head[3]
            == path@[3]);
        if tcp {
            assert(head =~= tcp_scheme());
        }
        if udp {
            assert(head =~= udp_scheme());
        }
        if head == tcp_scheme() {
            assert(tcp_scheme()[0] == 116 && tcp_scheme()[1] == 99 && tcp_scheme()[2] == 112
                && tcp_scheme()[3] == 58);
        }
        if head == udp_scheme() {
            assert(udp_scheme()[0] == 117 && udp_scheme()[1] == 100 && udp_scheme()[2] == 112
                && udp_scheme()[3] == 58);
        }
    }
    tcp || udp
}

/// The name of the remote or of the local end of the socket whose path is
/// `path`.
pub fn socket_name(local: bool, path: &[u8]) -> (name: Option<Vec<u8>>)
    ensures
        match name {
            Some(part) => socket_name_of(local, path@) == Some(part@),
            None => socket_name_of(local, path@) is None,
        },
{
    if !is_socket_path(path) {
        return None;
    }
    let body = copy_range(path, 4, path.len());
    assert(body@ =~= path@.skip(4));
    let slash = find(body.as_slice(), SLASH);
    if !local {
        let part = copy_range(body.as_slice(), 0, slash);
        assert(part@ =~= until_slash(body@));
        Some(part)
    } else if slash < body.len() {
        let rest = copy_range(body.as_slice(), slash + 1, body.len());
        assert(rest@ =~= body@.skip(slash + 1));
        let end = find(rest.as_slice(), SLASH);
        let part = copy_range(rest.as_slice(), 0, end);
        assert(part@ =~= until_slash(rest@));
        Some(part)
    } else {
        None
    }
}

/// Where the value of the environment entry `entry` begins, if the entry is
/// well formed.
pub fn variable(entry: &[u8]) -> (value_at: Option<usize>)
    ensures
        match value_at {
            Some(at) => variable_of(entry@) == Some(at as int),
            None => variable_of(entry@) is None,
        },
{
    let sep = find(entry, EQUALS);
    if 0 < sep && sep < entry.len() {
        Some(sep + 1)
    } else {
        None
    }
}

} // verus!
