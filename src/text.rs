use vstd::prelude::*;

use crate::socket_addr::{
    is_pathname_text, AddressError, InetSocketAddr, NamedSocketAddr, SocketAddr, UnixSocketAddr,
};

verus! {

/// What the standard grammar of socket addresses reads from text, if it is one.
pub uninterp spec fn parsed_inet(s: Seq<char>) -> Option<InetSocketAddr>;

/// The standard text of an IPv6 socket address.
pub uninterp spec fn v6_text(a: InetSocketAddr) -> Seq<char>;

/// The text of a string in Rust's quoted, escaped debug form.
pub uninterp spec fn debug_quoted(s: Seq<char>) -> Seq<char>;

/// The character of a decimal digit.
pub open spec fn digit_char(d: nat) -> char {
    if d == 0 { '0' }
    else if d == 1 { '1' }
    else if d == 2 { '2' }
    else if d == 3 { '3' }
    else if d == 4 { '4' }
    else if d == 5 { '5' }
    else if d == 6 { '6' }
    else if d == 7 { '7' }
    else if d == 8 { '8' }
    else { '9' }
}

/// A number in decimal, without leading zeros.
pub open spec fn decimal(n: nat) -> Seq<char>
    decreases n,
{
    if n < 10 {
        seq![digit_char(n)]
    } else {
        decimal(n / 10) + seq![digit_char(n % 10)]
    }
}

/// Dotted-decimal text of an IPv4 address followed by `:` and the port.
pub open spec fn v4_text(ip: Seq<u8>, port: u16) -> Seq<char> {
    decimal(ip[0] as nat) + seq!['.'] + decimal(ip[1] as nat) + seq!['.'] + decimal(ip[2] as nat)
        + seq!['.'] + decimal(ip[3] as nat) + seq![':'] + decimal(port as nat)
}

/// The text of an IP address and port: `ip:port`, with an IPv6 address in brackets.
pub open spec fn inet_text(a: InetSocketAddr) -> Seq<char> {
    match a {
        InetSocketAddr::V4 { octets, port } => v4_text(octets@, port),
        InetSocketAddr::V6 { .. } => v6_text(a),
    }
}

/// The debug text of a local-domain address: the quoted path and its kind.
pub open spec fn unix_text(u: UnixSocketAddr) -> Seq<char> {
    match u {
        UnixSocketAddr::Pathname(p) => debug_quoted(p@) + " (pathname)"@,
        UnixSocketAddr::AbstractOrUnnamed => "(abstract or unnamed)"@,
    }
}

/// The text of an observed address.
pub open spec fn observed_text(a: SocketAddr) -> Seq<char> {
    match a {
        SocketAddr::Inet(i) => inet_text(i),
        SocketAddr::Unix(u) => "local "@ + unix_text(u),
    }
}

/// The text of a named address.
pub open spec fn named_text(n: NamedSocketAddr) -> Seq<char> {
    match n {
        NamedSocketAddr::Inet(i) => inet_text(i),
        NamedSocketAddr::Unix(p) => "local "@ + debug_quoted(p@),
    }
}

/// What reading text as an IP address and port gives.
pub open spec fn inet_parse_result(s: Seq<char>) -> Result<NamedSocketAddr, AddressError> {
    match parsed_inet(s) {
        Some(a) => Ok(NamedSocketAddr::Inet(a)),
        None => Err(AddressError::InvalidSyntax),
    }
}

/// The text of one decimal digit.
fn digit_str(d: u16) -> (r: &'static str)
    requires
        d < 10,
    ensures
        r@ == seq![digit_char(d as nat)],
{
    proof {
        reveal_strlit("0");
        reveal_strlit("1");
        reveal_strlit("2");
        reveal_strlit("3");
        reveal_strlit("4");
        reveal_strlit("5");
        reveal_strlit("6");
        reveal_strlit("7");
        reveal_strlit("8");
        reveal_strlit("9");
    }
    if d == 0 { "0" }
    else if d == 1 { "1" }
    else if d == 2 { "2" }
    else if d == 3 { "3" }
    else if d == 4 { "4" }
    else if d == 5 { "5" }
    else if d == 6 { "6" }
    else if d == 7 { "7" }
    else if d == 8 { "8" }
    else { "9" }
}

/// Appends `n` in decimal to `s`.
fn push_decimal(s: &mut String, n: u16)
    ensures
        final(s)@ == old(s)@ + decimal(n as nat),
    decreases n,
{
    if n >= 10 {
        push_decimal(s, n / 10);
    }
    s.append(digit_str(n % 10));
    assert(s@ =~= old(s)@ + decimal(n as nat));
}

/// Dotted-decimal text of an IPv4 address and its port.
fn render_v4(octets: [u8; 4], port: u16) -> (r: String)
    ensures
        r@ == v4_text(octets@, port),
{
    proof {
        reveal_strlit(".");
        reveal_strlit(":");
    }
    let mut s = String::new();
    push_decimal(&mut s, octets[0] as u16);
    s.append(".");
    push_decimal(&mut s, octets[1] as u16);
    s.append(".");
    push_decimal(&mut s, octets[2] as u16);
    s.append(".");
    push_decimal(&mut s, octets[3] as u16);
    s.append(":");
    push_decimal(&mut s, port);
    assert(s@ =~= v4_text(octets@, port));
    s
}

/// Relies on `FromStr` of `core::net::SocketAddr`: it reads `ip:port` or
/// `[ipv6]:port`, and the dotted-decimal text of an IPv4 address and port
/// reads back as that address and port.
#[verifier::external_body]
fn parse_inet(s: &str) -> (r: Option<InetSocketAddr>)
    ensures
        r == parsed_inet(s@),
        r matches Some(a) ==> (a is V4 ==> parsed_inet(inet_text(a)) == r),
{
    match s.parse::<core::net::SocketAddr>() {
        Ok(core::net::SocketAddr::V4(a)) => Some(InetSocketAddr::V4 { octets: a.ip().octets(), port: a.port() }),
        Ok(core::net::SocketAddr::V6(a)) => Some(
            InetSocketAddr::V6 { segments: a.ip().segments(), port: a.port(), flowinfo: a.flowinfo(), scope_id: a.scope_id() },
        ),
        Err(_) => None,
    }
}

/// Relies on `Display` of `core::net::SocketAddrV6`: `[ip%scope]:port`.
#[verifier::external_body]
fn render_v6(segments: [u16; 8], port: u16, flowinfo: u32, scope_id: u32) -> (r: String)
    ensures
        r@ == v6_text(InetSocketAddr::V6 { segments, port, flowinfo, scope_id }),
{
    let a = core::net::SocketAddrV6::new(core::net::Ipv6Addr::from(segments), port, flowinfo, scope_id);
    format!("{}", a)
}

/// Relies on `Debug` of `str`: the text in double quotes, with escapes.
#[verifier::external_body]
fn quote_debug(s: &str) -> (r: String)
    ensures
        r@ == debug_quoted(s@),
{
    format!("{:?}", s)
}

} // verus!

verus! {

/// The first character of a number in decimal is a digit, never `/` or `.`.
proof fn lemma_decimal_starts_with_digit(n: nat)
    ensures
        decimal(n).len() > 0,
        decimal(n)[0] != '/' && decimal(n)[0] != '.',
    decreases n,
{
    if n >= 10 {
        lemma_decimal_starts_with_digit(n / 10);
    }
}

/// The text of an IPv4 address and port is never read as a path.
proof fn lemma_v4_text_not_pathname(ip: Seq<u8>, port: u16)
    requires
        ip.len() == 4,
    ensures
        !is_pathname_text(v4_text(ip, port)),
{
    lemma_decimal_starts_with_digit(ip[0] as nat);
    let t = v4_text(ip, port);
    assert(t[0] == decimal(ip[0] as nat)[0]);
}

impl InetSocketAddr {
    /// The text of this address: `ip:port`, with an IPv6 address in brackets.
    pub fn to_string(&self) -> (r: String)
        ensures
            r@ == inet_text(*self),
    {
        match *self {
            InetSocketAddr::V4 { octets, port } => render_v4(octets, port),
            InetSocketAddr::V6 { segments, port, flowinfo, scope_id } => render_v6(
                segments,
                port,
                flowinfo,
                scope_id,
            ),
        }
    }
}

impl UnixSocketAddr {
    /// The debug text of this address: the quoted path and `(pathname)`, or
    /// `(abstract or unnamed)`.
    pub fn to_string(&self) -> (r: String)
        ensures
            r@ == unix_text(*self),
    {
        match self {
            UnixSocketAddr::Pathname(p) => {
                let mut s = quote_debug(p.as_str());
                s.append(" (pathname)");
                s
            },
            UnixSocketAddr::AbstractOrUnnamed => String::from_str("(abstract or unnamed)"),
        }
    }
}

impl SocketAddr {
    /// Reads text as a named address and widens it to an observed one.
    pub fn from_str(s: &str) -> (r: Result<SocketAddr, AddressError>)
        ensures
            is_pathname_text(s@) ==> (r matches Ok(SocketAddr::Unix(UnixSocketAddr::Pathname(p)))
                && p@ == s@),
            !is_pathname_text(s@) ==> r == match parsed_inet(s@) {
                Some(a) => Ok(SocketAddr::Inet(a)),
                None => Err(AddressError::InvalidSyntax),
            },
    {
        match NamedSocketAddr::from_str(s) {
            Ok(n) => Ok(n.to_socket_addr()),
            Err(e) => Err(e),
        }
    }

    /// The text of this address: `ip:port`, or `local` and the debug text of a
    /// local-domain address.
    pub fn to_string(&self) -> (r: String)
        ensures
            r@ == observed_text(*self),
    {
        match self {
            SocketAddr::Inet(i) => i.to_string(),
            SocketAddr::Unix(u) => {
                let mut s = String::from_str("local ");
                let t = u.to_string();
                s.append(t.as_str());
                s
            },
        }
    }
}

impl NamedSocketAddr {
    /// Reads text as a named address. Text that starts with `/` or `.` is a
    /// local-channel path, whatever follows; other text must be an IP address
    /// and port in the standard grammar, else it is refused as invalid syntax.
    /// An IPv4 address read here renders as text that reads back to it.
    pub fn from_str(s: &str) -> (r: Result<NamedSocketAddr, AddressError>)
        ensures
            is_pathname_text(s@) ==> (r matches Ok(NamedSocketAddr::Unix(p)) && p@ == s@),
            !is_pathname_text(s@) ==> r == inet_parse_result(s@),
            r matches Ok(NamedSocketAddr::Inet(a)) ==> (a is V4 ==> (!is_pathname_text(
                named_text(NamedSocketAddr::Inet(a)),
            ) && inet_parse_result(named_text(NamedSocketAddr::Inet(a))) == r)),
    {
        if UnixSocketAddr::is_pathname(s) {
            return Ok(NamedSocketAddr::Unix(s.to_owned()));
        }
        match parse_inet(s) {
            Some(a) => {
                proof {
                    if let InetSocketAddr::V4 { octets, port } = a {
                        lemma_v4_text_not_pathname(octets@, port);
                    }
                }
                Ok(NamedSocketAddr::Inet(a))
            },
            None => Err(AddressError::InvalidSyntax),
        }
    }

    /// The text of this address: `ip:port`, or `local` and the quoted path.
    pub fn to_string(&self) -> (r: String)
        ensures
            r@ == named_text(*self),
    {
        match self {
            NamedSocketAddr::Inet(i) => i.to_string(),
            NamedSocketAddr::Unix(p) => {
                let mut s = String::from_str("local ");
                let t = quote_debug(p.as_str());
                s.append(t.as_str());
                s
            },
        }
    }
}

} // verus!
