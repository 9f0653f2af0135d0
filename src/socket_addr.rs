use vstd::prelude::*;

verus! {

/// Whether text is read as a local-channel path: it starts with `/` or `.`.
pub open spec fn is_pathname_text(s: Seq<char>) -> bool {
    s.len() > 0 && (s[0] == '/' || s[0] == '.')
}

/// An IP address and port, held as plain numbers.
#[derive(Clone, Copy, Debug, PartialEq, Eq, Hash, PartialOrd, Ord)]
pub enum InetSocketAddr {
    V4 { octets: [u8; 4], port: u16 },
    V6 { segments: [u16; 8], port: u16, flowinfo: u32, scope_id: u32 },
}

/// Address of a local-domain socket as the operating system reports it.
#[derive(Clone, Debug, PartialEq, Eq, Hash, PartialOrd, Ord)]
pub enum UnixSocketAddr {
    AbstractOrUnnamed,
    Pathname(String),
}

/// An observed address: what a socket actually has, which may not be nameable.
#[derive(Clone, Debug, PartialEq, Eq, Hash, PartialOrd, Ord)]
pub enum SocketAddr {
    Inet(InetSocketAddr),
    Unix(UnixSocketAddr),
}

/// A named address: one that can always be bound or connected to.
#[derive(Clone, Debug, PartialEq, Eq, Hash, PartialOrd, Ord)]
pub enum NamedSocketAddr {
    Inet(InetSocketAddr),
    Unix(String),
}

/// Why an address could not be read or named.
#[derive(Clone, Copy, Debug, PartialEq, Eq, Hash)]
pub enum AddressError {
    /// The text is neither a local-channel path nor an IP address and port.
    InvalidSyntax,
    /// An abstract or unnamed local-domain address has no name to connect to.
    Unsupported,
}

/// The named form of an observed address, where it has one.
pub open spec fn named_of(a: SocketAddr) -> Result<NamedSocketAddr, AddressError> {
    match a {
        SocketAddr::Inet(i) => Ok(NamedSocketAddr::Inet(i)),
        SocketAddr::Unix(UnixSocketAddr::Pathname(p)) => Ok(NamedSocketAddr::Unix(p)),
        SocketAddr::Unix(UnixSocketAddr::AbstractOrUnnamed) => Err(AddressError::Unsupported),
    }
}

/// The observed form of a named address: a path becomes a pathname address.
pub open spec fn observed_of(n: NamedSocketAddr) -> SocketAddr {
    match n {
        NamedSocketAddr::Inet(i) => SocketAddr::Inet(i),
        NamedSocketAddr::Unix(p) => SocketAddr::Unix(UnixSocketAddr::Pathname(p)),
    }
}

impl UnixSocketAddr {
    /// Whether `input` is read as a local-channel path: it starts with `/` or `.`.
    pub fn is_pathname(input: &str) -> (r: bool)
        ensures
            r == is_pathname_text(input@),
    {
        if input.unicode_len() == 0 {
            return false;
        }
        let c = input.get_char(0);
        c == '/' || c == '.'
    }

    /// The address of a local-domain socket from the path it is bound to, if any.
    pub fn from_pathname(path: Option<String>) -> (r: UnixSocketAddr)
        ensures
            match path {
                Some(p) => r == UnixSocketAddr::Pathname(p),
                None => r == UnixSocketAddr::AbstractOrUnnamed,
            },
    {
        match path {
            Some(p) => UnixSocketAddr::Pathname(p),
            None => UnixSocketAddr::AbstractOrUnnamed,
        }
    }
}

impl SocketAddr {
    /// Applies `mapper` to an IP address and port; a local-domain address is kept.
    pub fn map_inet<F: FnOnce(InetSocketAddr) -> InetSocketAddr>(self, mapper: F) -> (r: SocketAddr)
        requires
            self matches SocketAddr::Inet(i) ==> mapper.requires((i,)),
        ensures
            match self {
                SocketAddr::Inet(i) => r matches SocketAddr::Inet(j) && mapper.ensures((i,), j),
                SocketAddr::Unix(_) => r == self,
            },
    {
        match self {
            SocketAddr::Inet(i) => SocketAddr::Inet(mapper(i)),
            SocketAddr::Unix(u) => SocketAddr::Unix(u),
        }
    }

    /// Applies `mapper` to a local-domain address; an IP address and port is kept.
    pub fn map_unix<F: FnOnce(UnixSocketAddr) -> UnixSocketAddr>(self, mapper: F) -> (r: SocketAddr)
        requires
            self matches SocketAddr::Unix(u) ==> mapper.requires((u,)),
        ensures
            match self {
                SocketAddr::Inet(_) => r == self,
                SocketAddr::Unix(u) => r matches SocketAddr::Unix(v) && mapper.ensures((u,), v),
            },
    {
        match self {
            SocketAddr::Inet(i) => SocketAddr::Inet(i),
            SocketAddr::Unix(u) => SocketAddr::Unix(mapper(u)),
        }
    }

    /// The named address to reach this one by; an abstract or unnamed
    /// local-domain address has none.
    pub fn to_named_socket_addr(self) -> (r: Result<NamedSocketAddr, AddressError>)
        ensures
            r == named_of(self),
    {
        match self {
            SocketAddr::Inet(i) => Ok(NamedSocketAddr::Inet(i)),
            SocketAddr::Unix(UnixSocketAddr::Pathname(p)) => Ok(NamedSocketAddr::Unix(p)),
            SocketAddr::Unix(UnixSocketAddr::AbstractOrUnnamed) => Err(AddressError::Unsupported),
        }
    }
}

impl NamedSocketAddr {
    /// Applies `mapper` to an IP address and port; a path is kept.
    pub fn map_inet<F: FnOnce(InetSocketAddr) -> InetSocketAddr>(self, mapper: F) -> (r: NamedSocketAddr)
        requires
            self matches NamedSocketAddr::Inet(i) ==> mapper.requires((i,)),
        ensures
            match self {
                NamedSocketAddr::Inet(i) => r matches NamedSocketAddr::Inet(j) && mapper.ensures((i,), j),
                NamedSocketAddr::Unix(_) => r == self,
            },
    {
        match self {
            NamedSocketAddr::Inet(i) => NamedSocketAddr::Inet(mapper(i)),
            NamedSocketAddr::Unix(p) => NamedSocketAddr::Unix(p),
        }
    }

    /// Applies `mapper` to a path; an IP address and port is kept.
    pub fn map_unix<F: FnOnce(String) -> String>(self, mapper: F) -> (r: NamedSocketAddr)
        requires
            self matches NamedSocketAddr::Unix(p) ==> mapper.requires((p,)),
        ensures
            match self {
                NamedSocketAddr::Inet(_) => r == self,
                NamedSocketAddr::Unix(p) => r matches NamedSocketAddr::Unix(q) && mapper.ensures((p,), q),
            },
    {
        match self {
            NamedSocketAddr::Inet(i) => NamedSocketAddr::Inet(i),
            NamedSocketAddr::Unix(p) => NamedSocketAddr::Unix(mapper(p)),
        }
    }

    /// The observed form of this address; it always exists.
    pub fn to_socket_addr(self) -> (r: SocketAddr)
        ensures
            r == observed_of(self),
    {
        match self {
            NamedSocketAddr::Inet(i) => SocketAddr::Inet(i),
            NamedSocketAddr::Unix(p) => SocketAddr::Unix(UnixSocketAddr::Pathname(p)),
        }
    }
}

} // verus!

verus! {

/// Widening a named address to its observed form and naming that again gives
/// the named address back.
pub proof fn lemma_named_observed_round_trip(n: NamedSocketAddr)
    ensures
        named_of(observed_of(n)) == Ok::<NamedSocketAddr, AddressError>(n),
{
}

/// An abstract or unnamed local-domain address has no named form: naming it
/// always fails, and fails as unsupported.
pub proof fn lemma_unnamed_is_unsupported(a: SocketAddr)
    requires
        a == SocketAddr::Unix(UnixSocketAddr::AbstractOrUnnamed),
    ensures
        named_of(a) == Err::<NamedSocketAddr, AddressError>(AddressError::Unsupported),
{
}

impl From<NamedSocketAddr> for SocketAddr {
    fn from(n: NamedSocketAddr) -> (r: SocketAddr) {
        n.to_socket_addr()
    }
}

impl vstd::std_specs::convert::FromSpecImpl<NamedSocketAddr> for SocketAddr {
    open spec fn obeys_from_spec() -> bool {
        true
    }

    open spec fn from_spec(n: NamedSocketAddr) -> SocketAddr {
        observed_of(n)
    }
}

impl From<InetSocketAddr> for SocketAddr {
    fn from(i: InetSocketAddr) -> (r: SocketAddr) {
        SocketAddr::Inet(i)
    }
}

impl vstd::std_specs::convert::FromSpecImpl<InetSocketAddr> for SocketAddr {
    open spec fn obeys_from_spec() -> bool {
        true
    }

    open spec fn from_spec(i: InetSocketAddr) -> SocketAddr {
        SocketAddr::Inet(i)
    }
}

impl From<InetSocketAddr> for NamedSocketAddr {
    fn from(i: InetSocketAddr) -> (r: NamedSocketAddr) {
        NamedSocketAddr::Inet(i)
    }
}

impl vstd::std_specs::convert::FromSpecImpl<InetSocketAddr> for NamedSocketAddr {
    open spec fn obeys_from_spec() -> bool {
        true
    }

    open spec fn from_spec(i: InetSocketAddr) -> NamedSocketAddr {
        NamedSocketAddr::Inet(i)
    }
}

impl From<String> for SocketAddr {
    fn from(path: String) -> (r: SocketAddr) {
        SocketAddr::Unix(UnixSocketAddr::Pathname(path))
    }
}

impl vstd::std_specs::convert::FromSpecImpl<String> for SocketAddr {
    open spec fn obeys_from_spec() -> bool {
        true
    }

    open spec fn from_spec(path: String) -> SocketAddr {
        SocketAddr::Unix(UnixSocketAddr::Pathname(path))
    }
}

impl From<String> for NamedSocketAddr {
    fn from(path: String) -> (r: NamedSocketAddr) {
        NamedSocketAddr::Unix(path)
    }
}

impl vstd::std_specs::convert::FromSpecImpl<String> for NamedSocketAddr {
    open spec fn obeys_from_spec() -> bool {
        true
    }

    open spec fn from_spec(path: String) -> NamedSocketAddr {
        NamedSocketAddr::Unix(path)
    }
}

impl From<UnixSocketAddr> for SocketAddr {
    fn from(u: UnixSocketAddr) -> (r: SocketAddr) {
        SocketAddr::Unix(u)
    }
}

impl vstd::std_specs::convert::FromSpecImpl<UnixSocketAddr> for SocketAddr {
    open spec fn obeys_from_spec() -> bool {
        true
    }

    open spec fn from_spec(u: UnixSocketAddr) -> SocketAddr {
        SocketAddr::Unix(u)
    }
}

impl TryFrom<SocketAddr> for NamedSocketAddr {
    type Error = AddressError;

    fn try_from(a: SocketAddr) -> (r: Result<NamedSocketAddr, AddressError>) {
        a.to_named_socket_addr()
    }
}

impl vstd::std_specs::convert::TryFromSpecImpl<SocketAddr> for NamedSocketAddr {
    open spec fn obeys_try_from_spec() -> bool {
        true
    }

    open spec fn try_from_spec(a: SocketAddr) -> Result<NamedSocketAddr, AddressError> {
        named_of(a)
    }
}

} // verus!
