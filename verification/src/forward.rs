//! Port-forward specifications and their parsing from `host:port` text.
use vstd::prelude::*;
use vstd::string::*;
use crate::text::{decimal_text, decimal_value, digit_char, is_decimal_digit};

verus! {

/// A port forward to set up over an SSH connection.
#[derive(Debug, Clone, PartialEq, Eq)]
pub enum PortForward {
    /// Listen locally and forward each connection to `remote_host:remote_port`
    /// as seen from the server.
    Local { local_host: String, local_port: u16, remote_host: String, remote_port: u16 },
    /// Ask the server to listen and forward each connection back to
    /// `local_host:local_port`.
    Remote {
        remote_host: Option<String>,
        remote_port: u16,
        local_host: String,
        local_port: u16,
    },
}

/// A `PortForward` with its text taken as character sequences.
pub enum PortForwardView {
    Local { local_host: Seq<char>, local_port: u16, remote_host: Seq<char>, remote_port: u16 },
    Remote {
        remote_host: Option<Seq<char>>,
        remote_port: u16,
        local_host: Seq<char>,
        local_port: u16,
    },
}

impl View for PortForward {
    type V = PortForwardView;

    open spec fn view(&self) -> PortForwardView {
        match self {
            PortForward::Local { local_host, local_port, remote_host, remote_port } =>
                PortForwardView::Local {
                local_host: local_host@,
                local_port: *local_port,
                remote_host: remote_host@,
                remote_port: *remote_port,
            },
            PortForward::Remote { remote_host, remote_port, local_host, local_port } =>
                PortForwardView::Remote {
                remote_host: match remote_host {
                    Some(h) => Some(h@),
                    None => None,
                },
                remote_port: *remote_port,
                local_host: local_host@,
                local_port: *local_port,
            },
        }
    }
}

/// Why text is not a decimal `u16`, with the same three cases as the
/// standard library's integer parser.
pub enum IntErrorKind {
    Empty,
    InvalidDigit,
    PosOverflow,
}

/// The pieces of `s` between the occurrences of `':'`, in order, as
/// `str::split(':')` yields them: one more piece than there are colons,
/// and a single empty piece for empty text.
pub open spec fn split_colons(s: Seq<char>) -> Seq<Seq<char>>
    decreases s.len(),
{
    if s.len() == 0 {
        seq![Seq::<char>::empty()]
    } else {
        let pieces = split_colons(s.drop_last());
        if s.last() == ':' {
            pieces.push(Seq::<char>::empty())
        } else {
            pieces.update(pieces.len() - 1, pieces.last().push(s.last()))
        }
    }
}

/// The number of `':'` in `s`.
pub open spec fn colon_count(s: Seq<char>) -> nat
    decreases s.len(),
{
    if s.len() == 0 {
        0
    } else {
        colon_count(s.drop_last()) + if s.last() == ':' {
            1nat
        } else {
            0nat
        }
    }
}

/// The value of an ASCII decimal digit.
pub open spec fn digit_value(c: char) -> int {
    c as int - '0' as int
}

pub open spec fn is_digit(c: char) -> bool {
    '0' <= c <= '9'
}

/// Reads `d` as decimal digits from left to right, as the standard library
/// does for `u16`: the first character that is not a digit gives
/// `InvalidDigit`, unless an earlier prefix already exceeded `u16::MAX`,
/// which gives `PosOverflow`.
pub open spec fn digits_value(d: Seq<char>) -> Result<int, IntErrorKind>
    decreases d.len(),
{
    if d.len() == 0 {
        Ok(0)
    } else {
        match digits_value(d.drop_last()) {
            Err(e) => Err(e),
            Ok(v) => if !is_digit(d.last()) {
                Err(IntErrorKind::InvalidDigit)
            } else if v * 10 + digit_value(d.last()) > u16::MAX {
                Err(IntErrorKind::PosOverflow)
            } else {
                Ok(v * 10 + digit_value(d.last()))
            },
        }
    }
}

/// `str::parse::<u16>`: an optional leading `+`, then decimal digits.
pub open spec fn parse_u16(s: Seq<char>) -> Result<u16, IntErrorKind> {
    if s.len() == 0 {
        Err(IntErrorKind::Empty)
    } else if (s[0] == '+' || s[0] == '-') && s.len() == 1 {
        Err(IntErrorKind::InvalidDigit)
    } else {
        let digits = if s[0] == '+' {
            s.drop_first()
        } else {
            s
        };
        match digits_value(digits) {
            Ok(v) => Ok(v as u16),
            Err(e) => Err(e),
        }
    }
}

/// The message of a `ParseIntError` of the given kind.
pub open spec fn int_error_text(kind: IntErrorKind) -> Seq<char> {
    match kind {
        IntErrorKind::Empty => "cannot parse integer from empty string"@,
        IntErrorKind::InvalidDigit => "invalid digit found in string"@,
        IntErrorKind::PosOverflow => "number too large to fit in target type"@,
    }
}

/// A port number read from text, or the parser's message.
pub open spec fn port_from_text(s: Seq<char>) -> Result<u16, Seq<char>> {
    match parse_u16(s) {
        Ok(p) => Ok(p),
        Err(k) => Err(int_error_text(k)),
    }
}

/// The host the local end defaults to.
pub open spec fn default_local_host() -> Seq<char> {
    "127.0.0.1"@
}

/// `host:port` of the local end of a local forward; a bare `port` listens on
/// `127.0.0.1`.
pub open spec fn local_listen_address(local: Seq<char>) -> Result<(Seq<char>, u16), Seq<char>> {
    let parts = split_colons(local);
    if parts.len() == 2 {
        match port_from_text(parts[1]) {
            Ok(p) => Ok((parts[0], p)),
            Err(e) => Err(e),
        }
    } else if parts.len() == 1 {
        match port_from_text(parts[0]) {
            Ok(p) => Ok((default_local_host(), p)),
            Err(e) => Err(e),
        }
    } else {
        Err("Invalid local address: "@ + local)
    }
}

/// `host:port` that must name both parts; `what` names the end in the message.
pub open spec fn host_and_port(s: Seq<char>, what: Seq<char>) -> Result<(Seq<char>, u16), Seq<char>> {
    let parts = split_colons(s);
    if parts.len() == 2 {
        match port_from_text(parts[1]) {
            Ok(p) => Ok((parts[0], p)),
            Err(e) => Err(e),
        }
    } else {
        Err(what + s)
    }
}

/// The remote end of a remote forward: `host:port`, or a bare `port` with no host.
pub open spec fn remote_listen_address(remote: Seq<char>) -> Result<
    (Option<Seq<char>>, u16),
    Seq<char>,
> {
    let parts = split_colons(remote);
    if parts.len() == 2 {
        match port_from_text(parts[1]) {
            Ok(p) => Ok((Some(parts[0]), p)),
            Err(e) => Err(e),
        }
    } else if parts.len() == 1 {
        match port_from_text(parts[0]) {
            Ok(p) => Ok((None, p)),
            Err(e) => Err(e),
        }
    } else {
        Err("Invalid remote address: "@ + remote)
    }
}

/// What `PortForward::new_local(local, remote)` gives.
pub open spec fn spec_new_local(local: Seq<char>, remote: Seq<char>) -> Result<
    PortForwardView,
    Seq<char>,
> {
    match local_listen_address(local) {
        Err(e) => Err(e),
        Ok((local_host, local_port)) => match host_and_port(remote, "Invalid remote address: "@) {
            Err(e) => Err(e),
            Ok((remote_host, remote_port)) => Ok(
                PortForwardView::Local { local_host, local_port, remote_host, remote_port },
            ),
        },
    }
}

/// What `PortForward::new_remote(local, remote)` gives.
pub open spec fn spec_new_remote(local: Seq<char>, remote: Seq<char>) -> Result<
    PortForwardView,
    Seq<char>,
> {
    match remote_listen_address(remote) {
        Err(e) => Err(e),
        Ok((remote_host, remote_port)) => match host_and_port(local, "Invalid local address: "@) {
            Err(e) => Err(e),
            Ok((local_host, local_port)) => Ok(
                PortForwardView::Remote { remote_host, remote_port, local_host, local_port },
            ),
        },
    }
}

/// A result with its text taken as character sequences.
pub open spec fn result_view(r: Result<PortForward, String>) -> Result<PortForwardView, Seq<char>> {
    match r {
        Ok(pf) => Ok(pf@),
        Err(e) => Err(e@),
    }
}

proof fn lemma_colon_count_step(s: Seq<char>, i: int)
    requires
        0 <= i < s.len(),
    ensures
        colon_count(s.take(i + 1)) == colon_count(s.take(i)) + if s[i] == ':' {
            1nat
        } else {
            0nat
        },
{
    assert(s.take(i + 1).drop_last() =~= s.take(i));
}

proof fn lemma_split_without_colon(s: Seq<char>)
    requires
        colon_count(s) == 0,
    ensures
        split_colons(s) =~= seq![s],
    decreases s.len(),
{
    if s.len() > 0 {
        let front = s.drop_last();
        assert(colon_count(front) == 0 && s.last() != ':');
        lemma_split_without_colon(front);
        let pieces = split_colons(front);
        assert(pieces.len() == 1 && pieces.last() == front);
        assert(front.push(s.last()) =~= s);
        assert(pieces.update(0, front.push(s.last())) =~= seq![s]);
    } else {
        assert(s =~= Seq::<char>::empty());
    }
}

proof fn lemma_colon_counted(s: Seq<char>, k: int)
    requires
        0 <= k < s.len(),
        s[k] == ':',
    ensures
        colon_count(s) >= 1,
    decreases s.len(),
{
    if k < s.len() - 1 {
        lemma_colon_counted(s.drop_last(), k);
    }
}

proof fn lemma_split_one_colon(s: Seq<char>, k: int)
    requires
        0 <= k < s.len(),
        s[k] == ':',
        colon_count(s.take(k)) == 0,
        colon_count(s) == 1,
    ensures
        split_colons(s) =~= seq![s.take(k), s.skip(k + 1)],
    decreases s.len(),
{
    let front = s.drop_last();
    if k == s.len() - 1 {
        assert(front =~= s.take(k));
        lemma_split_without_colon(front);
        assert(s.skip(k + 1) =~= Seq::<char>::empty());
    } else {
        lemma_colon_counted(front, k);
        assert(front.take(k) =~= s.take(k));
        lemma_split_one_colon(front, k);
        assert(front.skip(k + 1).push(s.last()) =~= s.skip(k + 1));
    }
}

proof fn lemma_split_len(s: Seq<char>)
    ensures
        split_colons(s).len() == colon_count(s) + 1,
    decreases s.len(),
{
    if s.len() > 0 {
        lemma_split_len(s.drop_last());
    }
}

proof fn lemma_digits_error_sticks(d: Seq<char>, k: int)
    requires
        0 <= k <= d.len(),
        digits_value(d.take(k)) is Err,
    ensures
        digits_value(d) == digits_value(d.take(k)),
    decreases d.len(),
{
    if k == d.len() {
        assert(d.take(k) =~= d);
    } else {
        assert(d.drop_last().take(k) =~= d.take(k));
        lemma_digits_error_sticks(d.drop_last(), k);
    }
}

/// How `str::split(':')` cuts a text: into one piece, two pieces, or more.
enum Pieces<'a> {
    One,
    Two(&'a str, &'a str),
    More,
}

fn split_pieces<'a>(s: &'a str) -> (r: Pieces<'a>)
    ensures
        match r {
            Pieces::One => split_colons(s@) == seq![s@],
            Pieces::Two(first, second) => split_colons(s@) == seq![first@, second@],
            Pieces::More => split_colons(s@).len() > 2,
        },
{
    let n = s.unicode_len();
    let mut count: usize = 0;
    let mut first: usize = 0;
    let mut i: usize = 0;
    while i < n
        invariant
            i <= n,
            n == s@.len(),
            count <= i,
            count == colon_count(s@.take(i as int)),
            count > 0 ==> first < i && s@[first as int] == ':' && colon_count(
                s@.take(first as int),
            ) == 0,
        decreases n - i,
    {
        let c = s.get_char(i);
        proof {
            lemma_colon_count_step(s@, i as int);
        }
        if c == ':' {
            if count == 0 {
                first = i;
            }
            count = count + 1;
        }
        i = i + 1;
    }
    assert(s@.take(n as int) =~= s@);
    if count == 0 {
        proof {
            lemma_split_without_colon(s@);
        }
        Pieces::One
    } else if count == 1 {
        proof {
            lemma_split_one_colon(s@, first as int);
        }
        let front = s.substring_char(0, first);
        let back = s.substring_char(first + 1, n);
        assert(front@ =~= s@.take(first as int));
        assert(back@ =~= s@.skip(first + 1));
        Pieces::Two(front, back)
    } else {
        proof {
            lemma_split_len(s@);
        }
        Pieces::More
    }
}

/// `s.parse::<u16>()`, with the parser's message as the error.
fn parse_port(s: &str) -> (r: Result<u16, String>)
    ensures
        match r {
            Ok(p) => port_from_text(s@) == Ok::<u16, Seq<char>>(p),
            Err(e) => port_from_text(s@) == Err::<u16, Seq<char>>(e@),
        },
{
    let n = s.unicode_len();
    if n == 0 {
        return Err(String::from_str("cannot parse integer from empty string"));
    }
    let first = s.get_char(0);
    if (first == '+' || first == '-') && n == 1 {
        return Err(String::from_str("invalid digit found in string"));
    }
    let start: usize = if first == '+' {
        1
    } else {
        0
    };
    let ghost digits = if first == '+' {
        s@.drop_first()
    } else {
        s@
    };
    assert(digits =~= s@.subrange(start as int, n as int));
    let mut value: u32 = 0;
    let mut i: usize = start;
    while i < n
        invariant
            start <= i <= n,
            start <= 1,
            n == s@.len(),
            digits =~= s@.subrange(start as int, n as int),
            n > 0,
            !((s@[0] == '+' || s@[0] == '-') && n == 1),
            digits == (if s@[0] == '+' {
                s@.drop_first()
            } else {
                s@
            }),
            digits_value(digits.take(i - start)) == Ok::<int, IntErrorKind>(value as int),
            value <= u16::MAX,
        decreases n - i,
    {
        let c = s.get_char(i);
        let ghost seen = digits.take(i + 1 - start);
        assert(seen.drop_last() =~= digits.take(i - start));
        assert(seen.last() == c);
        if !('0' <= c && c <= '9') {
            proof {
                assert(digits_value(seen) == Err::<int, IntErrorKind>(IntErrorKind::InvalidDigit));
                lemma_digits_error_sticks(digits, i + 1 - start);
                assert(parse_u16(s@) == Err::<u16, IntErrorKind>(IntErrorKind::InvalidDigit));
            }
            return Err(String::from_str("invalid digit found in string"));
        }
        let d: u32 = (c as u32) - ('0' as u32);
        if value * 10 + d > 65535 {
            proof {
                assert(digits_value(seen) == Err::<int, IntErrorKind>(IntErrorKind::PosOverflow));
                lemma_digits_error_sticks(digits, i + 1 - start);
                assert(parse_u16(s@) == Err::<u16, IntErrorKind>(IntErrorKind::PosOverflow));
            }
            return Err(String::from_str("number too large to fit in target type"));
        }
        value = value * 10 + d;
        i = i + 1;
    }
    assert(digits.take(n - start) =~= digits);
    Ok(value as u16)
}

impl PortForward {
    /// A local forward from `[host:]port` (host `127.0.0.1` when omitted) to
    /// the server-side `host:port`.
    pub fn new_local(local: &str, remote: &str) -> (r: Result<Self, String>)
        ensures
            result_view(r) == spec_new_local(local@, remote@),
    {
        let (local_host, local_port) = match split_pieces(local) {
            Pieces::Two(host, port) => match parse_port(port) {
                Ok(p) => (String::from_str(host), p),
                Err(e) => return Err(e),
            },
            Pieces::One => match parse_port(local) {
                Ok(p) => (String::from_str("127.0.0.1"), p),
                Err(e) => return Err(e),
            },
            Pieces::More => {
                return Err(String::from_str("Invalid local address: ").concat(local));
            },
        };
        let (remote_host, remote_port) = match split_pieces(remote) {
            Pieces::Two(host, port) => match parse_port(port) {
                Ok(p) => (String::from_str(host), p),
                Err(e) => return Err(e),
            },
            _ => {
                return Err(String::from_str("Invalid remote address: ").concat(remote));
            },
        };
        Ok(PortForward::Local { local_host, local_port, remote_host, remote_port })
    }

    /// A remote forward from the server-side `[host:]port` (no host when
    /// omitted) to the local `host:port`.
    pub fn new_remote(local: &str, remote: &str) -> (r: Result<Self, String>)
        ensures
            result_view(r) == spec_new_remote(local@, remote@),
    {
        let (remote_host, remote_port) = match split_pieces(remote) {
            Pieces::Two(host, port) => match parse_port(port) {
                Ok(p) => (Some(String::from_str(host)), p),
                Err(e) => return Err(e),
            },
            Pieces::One => match parse_port(remote) {
                Ok(p) => (None, p),
                Err(e) => return Err(e),
            },
            Pieces::More => {
                return Err(String::from_str("Invalid remote address: ").concat(remote));
            },
        };
        let (local_host, local_port) = match split_pieces(local) {
            Pieces::Two(host, port) => match parse_port(port) {
                Ok(p) => (String::from_str(host), p),
                Err(e) => return Err(e),
            },
            _ => {
                return Err(String::from_str("Invalid local address: ").concat(local));
            },
        };
        Ok(PortForward::Remote { remote_host, remote_port, local_host, local_port })
    }
}


/// The text `host:port`.
pub open spec fn address_text(host: Seq<char>, port: u16) -> Seq<char> {
    host + seq![':'] + decimal_text(port as nat)
}

proof fn lemma_decimal_text(n: nat)
    requires
        n <= u16::MAX,
    ensures
        decimal_text(n).len() > 0,
        forall|i: int| 0 <= i < decimal_text(n).len() ==> is_digit(#[trigger] decimal_text(n)[i]),
        digits_value(decimal_text(n)) == Ok::<int, IntErrorKind>(n as int),
    decreases n,
{
    let t = decimal_text(n);
    if n < 10 {
        assert(t.drop_last() =~= Seq::<char>::empty());
        assert(digits_value(t.drop_last()) == Ok::<int, IntErrorKind>(0));
        assert(digit_value(digit_char(n)) == n);
        assert(t.last() == digit_char(n));
    } else {
        lemma_decimal_text(n / 10);
        assert(t.drop_last() =~= decimal_text(n / 10));
        assert(digit_value(digit_char(n % 10)) == n % 10);
        assert((n / 10) * 10 + n % 10 == n);
        assert(t.last() == digit_char(n % 10));
        assert(forall|i: int| 0 <= i < t.len() - 1 ==> t[i] == decimal_text(n / 10)[i]);
    }
}

proof fn lemma_parse_decimal(p: u16)
    ensures
        port_from_text(decimal_text(p as nat)) == Ok::<u16, Seq<char>>(p),
        colon_count(decimal_text(p as nat)) == 0,
{
    let t = decimal_text(p as nat);
    lemma_decimal_text(p as nat);
    assert(is_digit(t[0]));
    lemma_no_colon_counts_zero(t);
}

proof fn lemma_no_colon_counts_zero(s: Seq<char>)
    requires
        forall|i: int| 0 <= i < s.len() ==> #[trigger] s[i] != ':',
    ensures
        colon_count(s) == 0,
    decreases s.len(),
{
    if s.len() > 0 {
        lemma_no_colon_counts_zero(s.drop_last());
    }
}

proof fn lemma_colon_count_concat(a: Seq<char>, b: Seq<char>)
    ensures
        colon_count(a + b) == colon_count(a) + colon_count(b),
    decreases b.len(),
{
    if b.len() == 0 {
        assert(a + b =~= a);
    } else {
        lemma_colon_count_concat(a, b.drop_last());
        assert((a + b).drop_last() =~= a + b.drop_last());
    }
}

proof fn lemma_split_address(host: Seq<char>, port: u16)
    requires
        !host.contains(':'),
    ensures
        split_colons(address_text(host, port)) =~= seq![host, decimal_text(port as nat)],
{
    let s = address_text(host, port);
    let k = host.len() as int;
    assert forall|i: int| 0 <= i < host.len() implies #[trigger] host[i] != ':' by {
        if host[i] == ':' {
            assert(host.contains(':'));
        }
    }
    lemma_no_colon_counts_zero(host);
    lemma_parse_decimal(port);
    lemma_colon_count_concat(host, seq![':']);
    lemma_colon_count_concat(host + seq![':'], decimal_text(port as nat));
    assert(seq![':'].drop_last() =~= Seq::<char>::empty());
    assert(colon_count(Seq::<char>::empty()) == 0);
    assert(seq![':'].last() == ':');
    assert(colon_count(seq![':']) == 1);
    assert(s.take(k) =~= host);
    assert(s.skip(k + 1) =~= decimal_text(port as nat));
    lemma_split_one_colon(s, k);
}

/// A local forward written `host:port` for both ends, with hosts that hold
/// no colon, gives back those hosts and ports.
pub proof fn law_local_forward_round_trip(
    local_host: Seq<char>,
    local_port: u16,
    remote_host: Seq<char>,
    remote_port: u16,
)
    requires
        !local_host.contains(':'),
        !remote_host.contains(':'),
    ensures
        spec_new_local(
            address_text(local_host, local_port),
            address_text(remote_host, remote_port),
        ) == Ok::<PortForwardView, Seq<char>>(
            PortForwardView::Local { local_host, local_port, remote_host, remote_port },
        ),
{
    lemma_split_address(local_host, local_port);
    lemma_split_address(remote_host, remote_port);
    lemma_parse_decimal(local_port);
    lemma_parse_decimal(remote_port);
}

/// A local forward whose local end is a bare port listens on `127.0.0.1`.
pub proof fn law_local_forward_default_host(local_port: u16, remote_host: Seq<char>, remote_port: u16)
    requires
        !remote_host.contains(':'),
    ensures
        spec_new_local(
            decimal_text(local_port as nat),
            address_text(remote_host, remote_port),
        ) == Ok::<PortForwardView, Seq<char>>(
            PortForwardView::Local {
                local_host: default_local_host(),
                local_port,
                remote_host,
                remote_port,
            },
        ),
{
    lemma_parse_decimal(local_port);
    lemma_split_without_colon(decimal_text(local_port as nat));
    lemma_split_address(remote_host, remote_port);
    lemma_parse_decimal(remote_port);
}

/// A remote forward written `host:port` for both ends, with hosts that hold
/// no colon, gives back those hosts and ports.
pub proof fn law_remote_forward_round_trip(
    local_host: Seq<char>,
    local_port: u16,
    remote_host: Seq<char>,
    remote_port: u16,
)
    requires
        !local_host.contains(':'),
        !remote_host.contains(':'),
    ensures
        spec_new_remote(
            address_text(local_host, local_port),
            address_text(remote_host, remote_port),
        ) == Ok::<PortForwardView, Seq<char>>(
            PortForwardView::Remote {
                remote_host: Some(remote_host),
                remote_port,
                local_host,
                local_port,
            },
        ),
{
    lemma_split_address(local_host, local_port);
    lemma_split_address(remote_host, remote_port);
    lemma_parse_decimal(local_port);
    lemma_parse_decimal(remote_port);
}

/// A remote forward whose remote end is a bare port names no remote host.
pub proof fn law_remote_forward_without_host(local_host: Seq<char>, local_port: u16, remote_port: u16)
    requires
        !local_host.contains(':'),
    ensures
        spec_new_remote(
            address_text(local_host, local_port),
            decimal_text(remote_port as nat),
        ) == Ok::<PortForwardView, Seq<char>>(
            PortForwardView::Remote { remote_host: None, remote_port, local_host, local_port },
        ),
{
    lemma_parse_decimal(remote_port);
    lemma_split_without_colon(decimal_text(remote_port as nat));
    lemma_split_address(local_host, local_port);
    lemma_parse_decimal(local_port);
}

/// Text with two or more colons is no address: the local end of a local
/// forward is refused with the text quoted.
pub proof fn law_local_address_with_colons_refused(local: Seq<char>, remote: Seq<char>)
    requires
        colon_count(local) >= 2,
    ensures
        spec_new_local(local, remote) == Err::<PortForwardView, Seq<char>>(
            "Invalid local address: "@ + local,
        ),
{
    lemma_split_len(local);
}

/// Text with two or more colons is no address: the remote end of a remote
/// forward is refused with the text quoted.
pub proof fn law_remote_address_with_colons_refused(local: Seq<char>, remote: Seq<char>)
    requires
        colon_count(remote) >= 2,
    ensures
        spec_new_remote(local, remote) == Err::<PortForwardView, Seq<char>>(
            "Invalid remote address: "@ + remote,
        ),
{
    lemma_split_len(remote);
}

proof fn lemma_digits_value_of_digits(d: Seq<char>)
    requires
        forall|i: int| 0 <= i < d.len() ==> is_decimal_digit(#[trigger] d[i]),
    ensures
        digits_value(d) == if decimal_value(d) <= u16::MAX {
            Ok::<int, IntErrorKind>(decimal_value(d))
        } else {
            Err::<int, IntErrorKind>(IntErrorKind::PosOverflow)
        },
        decimal_value(d) >= 0,
    decreases d.len(),
{
    if d.len() > 0 {
        let front = d.drop_last();
        assert forall|i: int| 0 <= i < front.len() implies is_decimal_digit(#[trigger] front[i]) by {
            assert(front[i] == d[i]);
        }
        lemma_digits_value_of_digits(front);
        assert(is_decimal_digit(d[d.len() - 1]));
    }
}

/// A port written in decimal digits is the number they write, or too large
/// when that exceeds 65535; a leading `+` changes nothing.
pub proof fn law_port_digits(t: Seq<char>)
    requires
        t.len() > 0,
        forall|i: int| 0 <= i < t.len() ==> is_decimal_digit(#[trigger] t[i]),
    ensures
        port_from_text(t) == if decimal_value(t) <= 65535 {
            Ok::<u16, Seq<char>>(decimal_value(t) as u16)
        } else {
            Err::<u16, Seq<char>>("number too large to fit in target type"@)
        },
        port_from_text(seq!['+'] + t) == port_from_text(t),
{
    lemma_digits_value_of_digits(t);
    assert(is_decimal_digit(t[0]));
    let plus = seq!['+'] + t;
    assert(plus.drop_first() =~= t);
}

/// Empty text is no port, and neither is text that starts with `-` or is a
/// lone sign.
pub proof fn law_port_refusals(t: Seq<char>)
    ensures
        t.len() == 0 ==> port_from_text(t) == Err::<u16, Seq<char>>(
            "cannot parse integer from empty string"@,
        ),
        t.len() > 0 && t[0] == '-' ==> port_from_text(t) == Err::<u16, Seq<char>>(
            "invalid digit found in string"@,
        ),
        t.len() == 1 && t[0] == '+' ==> port_from_text(t) == Err::<u16, Seq<char>>(
            "invalid digit found in string"@,
        ),
{
    if t.len() > 1 && t[0] == '-' {
        let first = t.take(1);
        assert(first.drop_last() =~= Seq::<char>::empty());
        assert(digits_value(first.drop_last()) == Ok::<int, IntErrorKind>(0));
        assert(first.last() == '-');
        lemma_digits_error_sticks(t, 1);
    }
}

} // verus!
