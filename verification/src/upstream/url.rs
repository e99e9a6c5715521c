//! Configured upstream URLs and the addresses that nginx selected for them.

use vstd::prelude::*;
use vstd::slice::slice_to_vec;
use vstd::string::StringExecFns;

use crate::native::{NativePool, NativeState, NativeString, Pointer};
use crate::status::NGX_OK;

verus! {

/// Size of one native address record.
pub const ADDRESS_SIZE: usize = 32;

/// Failure while reading a native socket address.
#[derive(Clone, Copy, Debug, PartialEq, Eq, Structural)]
pub enum SocketAddressError {
    /// The socket-address pointer is null.
    NullAddress,
    /// The socket-address pointer is misaligned.
    MisalignedAddress,
    /// The length is too small for the address family.
    TruncatedAddress,
    /// The address family is not supported.
    UnsupportedFamily,
}

/// A port number.
#[derive(Clone, Copy, Debug, PartialEq, Eq, Structural)]
pub struct SocketPort(pub u16);

impl SocketPort {
    /// The port whose number in host byte order is `port`.
    pub fn from_host_order(port: u16) -> (result: Self)
        ensures
            result == SocketPort(port),
    {
        SocketPort(port)
    }

    /// The number of the port in host byte order.
    pub fn host_order(self) -> (result: u16)
        ensures
            result == self.0,
    {
        self.0
    }
}

/// A native socket address.
#[derive(Debug)]
pub enum NativeSocketAddress {
    /// An IPv4 address.
    Inet { port: u16, octets: [u8; 4] },
    /// An IPv6 address.
    Inet6 { port: u16, octets: [u8; 16] },
    /// A Unix-domain socket path.
    Unix { path: Vec<u8> },
    /// An address of another family.
    Other,
}

impl NativeSocketAddress {
    /// The length that an address of this family takes at least.
    pub open spec fn least_len(self) -> u32 {
        match self {
            NativeSocketAddress::Inet { .. } => 16,
            NativeSocketAddress::Inet6 { .. } => 28,
            NativeSocketAddress::Unix { .. } => 2,
            NativeSocketAddress::Other => 2,
        }
    }

    /// What is wrong with a socket address of a length, if anything.
    pub open spec fn refused(address: Pointer<NativeSocketAddress>, len: u32) -> Option<
        SocketAddressError,
    > {
        match address {
            Pointer::Null => Some(SocketAddressError::NullAddress),
            Pointer::Misaligned => Some(SocketAddressError::MisalignedAddress),
            Pointer::To(value) => if len < value.least_len() {
                Some(SocketAddressError::TruncatedAddress)
            } else if value is Other {
                Some(SocketAddressError::UnsupportedFamily)
            } else {
                None
            },
        }
    }
}

/// Checked view of a socket address.
#[derive(Clone, Copy, Debug)]
pub struct SocketAddress<'address> {
    raw: &'address NativeSocketAddress,
}

impl<'address> SocketAddress<'address> {
    /// The address behind the view.
    pub closed spec fn view(self) -> NativeSocketAddress {
        *self.raw
    }

    /// A checked view of a native socket address and its length.
    pub fn parse(address: &'address Pointer<NativeSocketAddress>, len: u32) -> (result: Result<
        Self,
        SocketAddressError,
    >)
        ensures
            match NativeSocketAddress::refused(*address, len) {
                Some(error) => result matches Err(e) && e == error,
                None => result matches Ok(view) && *address == Pointer::To(view@),
            },
    {
        let raw = match address {
            Pointer::Null => return Err(SocketAddressError::NullAddress),
            Pointer::Misaligned => return Err(SocketAddressError::MisalignedAddress),
            Pointer::To(raw) => raw,
        };
        let least: u32 = match raw {
            NativeSocketAddress::Inet { .. } => 16,
            NativeSocketAddress::Inet6 { .. } => 28,
            _ => 2,
        };
        if len < least {
            return Err(SocketAddressError::TruncatedAddress);
        }
        match raw {
            NativeSocketAddress::Other => Err(SocketAddressError::UnsupportedFamily),
            _ => Ok(SocketAddress { raw }),
        }
    }

    /// The octets of an IPv4 address.
    pub fn ipv4_octets(&self) -> (result: Option<[u8; 4]>)
        ensures
            result == (match self@ {
                NativeSocketAddress::Inet { octets, .. } => Some(octets),
                _ => None,
            }),
    {
        match self.raw {
            NativeSocketAddress::Inet { octets, .. } => Some(*octets),
            _ => None,
        }
    }

    /// The octets of an IPv6 address.
    pub fn ipv6_octets(&self) -> (result: Option<[u8; 16]>)
        ensures
            result == (match self@ {
                NativeSocketAddress::Inet6 { octets, .. } => Some(octets),
                _ => None,
            }),
    {
        match self.raw {
            NativeSocketAddress::Inet6 { octets, .. } => Some(*octets),
            _ => None,
        }
    }

    /// The port of an Internet address.
    pub fn port(&self) -> (result: Option<SocketPort>)
        ensures
            result == (match self@ {
                NativeSocketAddress::Inet { port, .. } => Some(SocketPort(port)),
                NativeSocketAddress::Inet6 { port, .. } => Some(SocketPort(port)),
                _ => None,
            }),
    {
        match self.raw {
            NativeSocketAddress::Inet { port, .. } => Some(SocketPort(*port)),
            NativeSocketAddress::Inet6 { port, .. } => Some(SocketPort(*port)),
            _ => None,
        }
    }

    /// The path of a Unix-domain socket.
    pub fn unix_path(&self) -> (result: Option<&'address [u8]>)
        ensures
            match self@ {
                NativeSocketAddress::Unix { path } => result matches Some(bytes) && bytes@ == path@,
                _ => result is None,
            },
    {
        match self.raw {
            NativeSocketAddress::Unix { path } => Some(path.as_slice()),
            _ => None,
        }
    }
}

/// Failure while parsing or viewing a configured upstream URL.
#[derive(Clone, Copy, Debug, PartialEq, Eq, Structural)]
pub enum UpstreamUrlViewError {
    /// The parsed URL has a nonempty string with no backing bytes.
    MissingStringData,
    /// Nginx reported more addresses than can fit in the process address space.
    AddressCountOverflow,
    /// The parsed URL has addresses but no address array.
    MissingAddresses,
    /// The parsed address array does not satisfy native alignment.
    MisalignedAddresses,
    /// A selected native socket address is invalid.
    SocketAddress(SocketAddressError),
}

impl UpstreamUrlViewError {
    /// The text of the error.
    pub open spec fn text(self) -> Seq<char> {
        match self {
            UpstreamUrlViewError::MissingStringData => "upstream URL string has no data"@,
            UpstreamUrlViewError::AddressCountOverflow => "upstream URL address count is too large"@,
            UpstreamUrlViewError::MissingAddresses => "upstream URL has no address array"@,
            UpstreamUrlViewError::MisalignedAddresses => "upstream URL address array is misaligned"@,
            UpstreamUrlViewError::SocketAddress(_) => "upstream URL has an invalid address"@,
        }
    }

    /// The text of the error.
    pub fn message(&self) -> (result: &'static str)
        ensures
            result@ == self.text(),
    {
        match self {
            UpstreamUrlViewError::MissingStringData => "upstream URL string has no data",
            UpstreamUrlViewError::AddressCountOverflow => "upstream URL address count is too large",
            UpstreamUrlViewError::MissingAddresses => "upstream URL has no address array",
            UpstreamUrlViewError::MisalignedAddresses => "upstream URL address array is misaligned",
            UpstreamUrlViewError::SocketAddress(_) => "upstream URL has an invalid address",
        }
    }
}

impl From<SocketAddressError> for UpstreamUrlViewError {
    fn from(error: SocketAddressError) -> (result: Self) {
        UpstreamUrlViewError::SocketAddress(error)
    }
}

impl vstd::std_specs::convert::FromSpecImpl<SocketAddressError> for UpstreamUrlViewError {
    open spec fn obeys_from_spec() -> bool {
        true
    }

    open spec fn from_spec(error: SocketAddressError) -> Self {
        UpstreamUrlViewError::SocketAddress(error)
    }
}

/// Error text emitted by nginx while parsing a configured upstream URL.
#[derive(Debug)]
pub struct UpstreamUrlMessage {
    bytes: Vec<u8>,
}

impl UpstreamUrlMessage {
    /// The bytes of the message.
    pub closed spec fn view(self) -> Seq<u8> {
        self.bytes@
    }

    /// Returns the pool-owned nginx parser message bytes.
    pub fn as_bytes(&self) -> (result: &[u8])
        ensures
            result@ == self@,
    {
        self.bytes.as_slice()
    }
}

/// Failure while parsing an upstream URL through nginx.
#[derive(Debug)]
pub enum UpstreamUrlParseError {
    /// nginx cannot parse an empty URL input.
    EmptyInput,
    /// The configuration pool could not retain URL input or parser diagnostics.
    Allocation,
    /// nginx rejected the URL and supplied a pool-owned diagnostic.
    Invalid(UpstreamUrlMessage),
    /// nginx rejected the URL without a parser diagnostic.
    Native,
}

/// The text that bytes spell in UTF-8, by `core::str::from_utf8`, which fails exactly on bytes that
/// are not UTF-8.
#[verifier::external_body]
fn utf8_text(bytes: &[u8]) -> (result: Option<&str>)
    ensures
        match result {
            Some(text) => vstd::utf8::valid_utf8(bytes@) && text@ == vstd::utf8::decode_utf8(bytes@),
            None => !vstd::utf8::valid_utf8(bytes@),
        },
{
    match core::str::from_utf8(bytes) {
        Ok(text) => Some(text),
        Err(_) => None,
    }
}

impl UpstreamUrlParseError {
    /// The text of the error. A diagnostic that is not UTF-8 shows as `invalid`.
    pub open spec fn text(self) -> Seq<char> {
        match self {
            UpstreamUrlParseError::EmptyInput => "upstream URL is empty"@,
            UpstreamUrlParseError::Allocation => "failed to allocate upstream URL data"@,
            UpstreamUrlParseError::Invalid(message) => "nginx rejected upstream URL: "@ + (
            if vstd::utf8::valid_utf8(message@) {
                vstd::utf8::decode_utf8(message@)
            } else {
                "invalid"@
            }),
            UpstreamUrlParseError::Native => "nginx rejected upstream URL"@,
        }
    }

    /// The text of the error.
    pub fn message(&self) -> (result: String)
        ensures
            result@ == self.text(),
    {
        match self {
            UpstreamUrlParseError::EmptyInput => String::from_str("upstream URL is empty"),
            UpstreamUrlParseError::Allocation => String::from_str(
                "failed to allocate upstream URL data",
            ),
            UpstreamUrlParseError::Invalid(message) => {
                let mut text = String::from_str("nginx rejected upstream URL: ");
                match utf8_text(message.as_bytes()) {
                    Some(detail) => text.append(detail),
                    None => text.append("invalid"),
                }
                text
            },
            UpstreamUrlParseError::Native => String::from_str("nginx rejected upstream URL"),
        }
    }
}

/// Whether nginx used the URL's configured default port or an explicit authority port.
#[derive(Clone, Copy, Debug, PartialEq, Eq, Structural)]
pub enum UpstreamPort {
    /// The authority omitted its port and nginx used the supplied default.
    Default(SocketPort),
    /// The authority contained an explicit port.
    Explicit(SocketPort),
}

impl UpstreamPort {
    /// Returns the port.
    pub fn value(self) -> (result: SocketPort)
        ensures
            result == (match self {
                UpstreamPort::Default(port) => port,
                UpstreamPort::Explicit(port) => port,
            }),
    {
        match self {
            UpstreamPort::Default(port) => port,
            UpstreamPort::Explicit(port) => port,
        }
    }
}

/// A native address that nginx selected.
#[derive(Debug)]
pub struct NativeAddress {
    pub sockaddr: Pointer<NativeSocketAddress>,
    pub socklen: u32,
    pub name: NativeString,
}

/// A native URL as nginx's parser leaves it.
#[derive(Debug)]
pub struct NativeUrl {
    pub url: NativeString,
    pub host: NativeString,
    /// Address family.
    pub family: i32,
    pub port: u16,
    /// Whether the authority omitted its port.
    pub no_port: bool,
    pub naddrs: usize,
    /// The addresses that can be read through the address pointer.
    pub addrs: Pointer<Vec<NativeAddress>>,
}

impl NativeUrl {
    /// Whether the strings and every address that the URL promises can be read.
    pub open spec fn readable(self) -> bool {
        &&& self.url.readable()
        &&& self.host.readable()
        &&& self.addrs matches Pointer::To(addresses) ==> {
            &&& self.naddrs <= addresses.len()
            &&& forall|i: int| 0 <= i < addresses.len() ==> (#[trigger] addresses@[i]).name.readable()
        }
    }

    /// What is wrong with the address array, if anything.
    pub open spec fn addresses_refused(self) -> Option<UpstreamUrlViewError> {
        if self.naddrs * ADDRESS_SIZE > isize::MAX {
            Some(UpstreamUrlViewError::AddressCountOverflow)
        } else if self.naddrs == 0 {
            None
        } else {
            match self.addrs {
                Pointer::Null => Some(UpstreamUrlViewError::MissingAddresses),
                Pointer::Misaligned => Some(UpstreamUrlViewError::MisalignedAddresses),
                Pointer::To(_) => None,
            }
        }
    }

    /// The addresses in nginx's resolution order.
    pub open spec fn addresses(self) -> Seq<NativeAddress> {
        match self.addrs {
            Pointer::To(addresses) => addresses@.take(self.naddrs as int),
            _ => Seq::empty(),
        }
    }

    /// The port of the URL, unless it is a URL of the Unix family.
    pub open spec fn port_outside(self, unix: i32) -> Option<UpstreamPort> {
        if self.family == unix {
            None
        } else if self.no_port {
            Some(UpstreamPort::Default(SocketPort(self.port)))
        } else {
            Some(UpstreamPort::Explicit(SocketPort(self.port)))
        }
    }
}

/// The bytes of a native string, unless it has a length but no data.
fn checked_url_bytes(value: &NativeString) -> (result: Result<&[u8], UpstreamUrlViewError>)
    requires
        value.readable(),
    ensures
        if value.missing() {
            result matches Err(UpstreamUrlViewError::MissingStringData)
        } else {
            result matches Ok(bytes) && bytes@ == value.bytes()
        },
{
    if value.len > 0 && value.data.is_none() {
        return Err(UpstreamUrlViewError::MissingStringData);
    }
    Ok(value.as_bytes())
}

/// The address family of Unix-domain sockets, `libc::AF_UNIX`. It is 1 on Linux, macOS, the BSDs and
/// every other system that `libc` defines it for, except Haiku, which this crate is not for.
#[verifier::external_body]
fn unix_family() -> (result: i32)
    ensures
        result == 1,
{
    libc::AF_UNIX
}

/// A URL that nginx is about to parse.
#[derive(Debug)]
pub struct PendingUpstreamUrl {
    pool: usize,
    input: Vec<u8>,
    default_port: u16,
}

impl PendingUpstreamUrl {
    /// The configuration pool, by its address.
    pub closed spec fn pool(self) -> usize {
        self.pool
    }

    /// The copied input.
    pub closed spec fn input(self) -> Seq<u8> {
        self.input@
    }

    /// The port to use when the authority omits one.
    pub closed spec fn default_port(self) -> u16 {
        self.default_port
    }

    /// The copied input and the default port that nginx's parser gets.
    pub fn call(&self) -> (result: (&[u8], u16))
        ensures
            result.0@ == self.input(),
            result.1 == self.default_port(),
    {
        (self.input.as_slice(), self.default_port)
    }

    /// Ends the parsing, given the status, the URL and the diagnostic that nginx's parser left.
    pub fn finish(
        self,
        native: &mut NativeState,
        status: isize,
        parsed: NativeUrl,
        diagnostic: Option<Vec<u8>>,
    ) -> (result: Result<ConfiguredUpstreamUrl, UpstreamUrlParseError>)
        requires
            old(native).pools@.contains_key(self.pool()),
            parsed.readable(),
        ensures
            *final(native) == (NativeState { pools: final(native).pools, ..*old(native) }),
            if status == NGX_OK {
                &&& *final(native) == *old(native)
                &&& result matches Ok(url)
                &&& url.wf()
                &&& url@.url.bytes() == self.input()
                &&& !url@.url.missing()
                &&& url@ == (NativeUrl { url: url@.url, ..parsed })
            } else {
                match diagnostic {
                    None => {
                        &&& *final(native) == *old(native)
                        &&& result matches Err(UpstreamUrlParseError::Native)
                    },
                    Some(bytes) => if bytes@.len() == 0 {
                        &&& *final(native) == *old(native)
                        &&& result matches Err(UpstreamUrlParseError::Invalid(message))
                        &&& message@.len() == 0
                    } else {
                        &&& final(native).drew(*old(native), self.pool(), 1)
                        &&& if old(native).pools@[self.pool()].blocks@.len() == 0 {
                            result matches Err(UpstreamUrlParseError::Allocation)
                        } else {
                            result matches Err(UpstreamUrlParseError::Invalid(message)) && message@
                                == bytes@
                        }
                    },
                }
            },
    {
        if status == NGX_OK {
            let len: usize = self.input.len();
            let ghost bytes = self.input@;
            let mut raw = parsed;
            raw.url = NativeString { len, data: Some(self.input) };
            assert(raw.url.bytes() =~= bytes);
            return Ok(ConfiguredUpstreamUrl { raw });
        }
        let bytes = match diagnostic {
            Some(bytes) => bytes,
            None => return Err(UpstreamUrlParseError::Native),
        };
        if bytes.len() == 0 {
            return Err(UpstreamUrlParseError::Invalid(UpstreamUrlMessage { bytes }));
        }
        if !draw(native, self.pool) {
            return Err(UpstreamUrlParseError::Allocation);
        }
        Err(UpstreamUrlParseError::Invalid(UpstreamUrlMessage { bytes }))
    }
}

/// Asks the pool at `pool` for a block: whether there was one.
fn draw(native: &mut NativeState, pool: usize) -> (result: bool)
    requires
        old(native).pools@.contains_key(pool),
    ensures
        *final(native) == (NativeState { pools: final(native).pools, ..*old(native) }),
        final(native).drew(*old(native), pool, 1),
        result == (old(native).pools@[pool].blocks@.len() > 0),
{
    let mut value = native.take_pool(pool);
    let ghost blocks = value.blocks@;
    let block = value.allocate();
    native.put_pool(pool, value);
    proof {
        NativePool::lemma_spend(blocks, 1, 0);
    }
    assert(native.pools@ =~= old(native).pools@.insert(pool, native.pools@[pool]));
    block.is_some()
}

/// Parsed URL retained by the nginx configuration pool.
#[derive(Debug)]
pub struct ConfiguredUpstreamUrl {
    raw: NativeUrl,
}

impl ConfiguredUpstreamUrl {
    /// The native URL.
    pub closed spec fn view(self) -> NativeUrl {
        self.raw
    }

    /// Whether the strings and addresses of the URL can be read.
    pub closed spec fn wf(self) -> bool {
        self.raw.readable()
    }

    /// A view of a URL that nginx parsed.
    pub fn from_raw(raw: NativeUrl) -> (result: Self)
        requires
            raw.readable(),
        ensures
            result.wf(),
            result@ == raw,
    {
        ConfiguredUpstreamUrl { raw }
    }

    /// Copies one upstream URL for nginx's configured URL parser.
    ///
    /// `default_port` is used only when the authority omits a port. What the parser left is handed
    /// to [`PendingUpstreamUrl::finish`]. DNS resolution follows nginx's configured parser behavior
    /// and is not refreshed by this wrapper.
    pub fn parse(native: &mut NativeState, pool: usize, input: &[u8], default_port: u16) -> (result:
        Result<PendingUpstreamUrl, UpstreamUrlParseError>)
        requires
            old(native).pools@.contains_key(pool),
        ensures
            *final(native) == (NativeState { pools: final(native).pools, ..*old(native) }),
            if input@.len() == 0 {
                &&& *final(native) == *old(native)
                &&& result matches Err(UpstreamUrlParseError::EmptyInput)
            } else {
                &&& final(native).drew(*old(native), pool, 2)
                &&& if old(native).pools@[pool].blocks@.len() < 2 {
                    result matches Err(UpstreamUrlParseError::Allocation)
                } else {
                    &&& result matches Ok(pending)
                    &&& pending.pool() == pool
                    &&& pending.input() == input@
                    &&& pending.default_port() == default_port
                }
            },
    {
        if input.len() == 0 {
            return Err(UpstreamUrlParseError::EmptyInput);
        }
        let ghost first = *native;
        let copied = draw(native, pool);
        let ghost middle = *native;
        proof {
            NativePool::lemma_spend(first.pools@[pool].blocks@, 1, 1);
            if !copied {
                assert(NativePool::spend(first.pools@[pool].blocks@, 1) =~= NativePool::spend(
                    first.pools@[pool].blocks@,
                    2,
                ));
            }
        }
        if !copied {
            return Err(UpstreamUrlParseError::Allocation);
        }
        let allocated = draw(native, pool);
        proof {
            assert(native.pools@ =~= first.pools@.insert(pool, native.pools@[pool]));
            crate::request::header_list::lemma_spent_twice(
                native.pools@[pool].blocks@,
                middle.pools@[pool].blocks@,
                first.pools@[pool].blocks@,
            );
        }
        if !allocated {
            return Err(UpstreamUrlParseError::Allocation);
        }
        Ok(PendingUpstreamUrl { pool, input: slice_to_vec(input), default_port })
    }

    /// Returns the copied authority bytes nginx parsed.
    pub fn input(&self) -> (result: Result<&[u8], UpstreamUrlViewError>)
        requires
            self.wf(),
        ensures
            if self@.url.missing() {
                result matches Err(UpstreamUrlViewError::MissingStringData)
            } else {
                result matches Ok(bytes) && bytes@ == self@.url.bytes()
            },
    {
        checked_url_bytes(&self.raw.url)
    }

    /// Returns the parsed hostname or Unix-domain socket path bytes.
    pub fn host(&self) -> (result: Result<&[u8], UpstreamUrlViewError>)
        requires
            self.wf(),
        ensures
            if self@.host.missing() {
                result matches Err(UpstreamUrlViewError::MissingStringData)
            } else {
                result matches Ok(bytes) && bytes@ == self@.host.bytes()
            },
    {
        checked_url_bytes(&self.raw.host)
    }

    /// Returns the parsed URL port provenance for addresses outside the Unix family `unix`.
    pub fn port_outside(&self, unix: i32) -> (result: Option<UpstreamPort>)
        ensures
            result == self@.port_outside(unix),
    {
        if self.raw.family == unix {
            return None;
        }
        let port = SocketPort::from_host_order(self.raw.port);
        if self.raw.no_port {
            Some(UpstreamPort::Default(port))
        } else {
            Some(UpstreamPort::Explicit(port))
        }
    }

    /// Returns the parsed URL port provenance for Internet addresses.
    pub fn port(&self) -> (result: Option<UpstreamPort>)
        ensures
            result == self@.port_outside(1),
    {
        self.port_outside(unix_family())
    }

    /// Returns the checked selected addresses nginx resolved for this URL.
    pub fn addresses(&self) -> (result: Result<UpstreamAddresses<'_>, UpstreamUrlViewError>)
        requires
            self.wf(),
        ensures
            match self@.addresses_refused() {
                Some(error) => result matches Err(e) && e == error,
                None => result matches Ok(addresses) && addresses.wf() && addresses@ == (
                if self@.naddrs == 0 {
                    Seq::empty()
                } else {
                    self@.addresses()
                }),
            },
    {
        let len: usize = self.raw.naddrs;
        let most: usize = isize::MAX as usize / ADDRESS_SIZE;
        if len > most {
            return Err(UpstreamUrlViewError::AddressCountOverflow);
        }
        if len == 0 {
            let none = UpstreamAddresses { raw: None, len: 0 };
            assert(none@ =~= Seq::empty());
            return Ok(none);
        }
        match &self.raw.addrs {
            Pointer::Null => Err(UpstreamUrlViewError::MissingAddresses),
            Pointer::Misaligned => Err(UpstreamUrlViewError::MisalignedAddresses),
            Pointer::To(addresses) => Ok(UpstreamAddresses { raw: Some(addresses), len }),
        }
    }
}

/// Checked addresses selected by nginx for one configured upstream URL.
#[derive(Clone, Copy, Debug)]
pub struct UpstreamAddresses<'url> {
    raw: Option<&'url Vec<NativeAddress>>,
    len: usize,
}

impl<'url> UpstreamAddresses<'url> {
    /// The addresses in nginx's resolution order.
    pub closed spec fn view(self) -> Seq<NativeAddress> {
        match self.raw {
            Some(addresses) => addresses@.take(self.len as int),
            None => Seq::empty(),
        }
    }

    /// Whether every address and its name can be read.
    pub closed spec fn wf(self) -> bool {
        match self.raw {
            Some(addresses) => {
                &&& self.len <= addresses.len()
                &&& forall|i: int|
                    0 <= i < addresses.len() ==> (#[trigger] addresses@[i]).name.readable()
            },
            None => self.len == 0,
        }
    }

    /// Returns the number of selected addresses.
    pub fn len(&self) -> (result: usize)
        requires
            self.wf(),
        ensures
            result == self@.len(),
    {
        self.len
    }

    /// Returns whether nginx selected no addresses, for example for a no-resolve URL.
    pub fn is_empty(&self) -> (result: bool)
        requires
            self.wf(),
        ensures
            result == (self@.len() == 0),
    {
        self.len == 0
    }

    /// Returns one checked selected address by index.
    pub fn get(&self, index: usize) -> (result: Option<UpstreamAddress<'url>>)
        requires
            self.wf(),
        ensures
            match result {
                Some(address) => {
                    &&& index < self@.len()
                    &&& address@ == self@[index as int]
                    &&& address.wf()
                },
                None => index >= self@.len(),
            },
    {
        if index >= self.len {
            return None;
        }
        match self.raw {
            Some(addresses) => Some(UpstreamAddress { raw: &addresses[index] }),
            None => None,
        }
    }

    /// Iterates over the selected addresses in nginx's resolution order.
    pub fn iter(&self) -> (result: UpstreamAddressIter<'url>)
        requires
            self.wf(),
        ensures
            result.wf(),
            result@ == self@,
    {
        let iter = UpstreamAddressIter { addresses: *self, index: 0 };
        assert(self@.skip(0) =~= self@);
        iter
    }
}

/// The addresses of [`UpstreamAddresses`] that are still to come.
#[derive(Clone, Copy, Debug)]
pub struct UpstreamAddressIter<'url> {
    addresses: UpstreamAddresses<'url>,
    index: usize,
}

impl<'url> UpstreamAddressIter<'url> {
    /// The addresses that are still to come.
    pub closed spec fn view(self) -> Seq<NativeAddress> {
        self.addresses@.skip(self.index as int)
    }

    /// Whether the iterator stands within checked addresses.
    pub closed spec fn wf(self) -> bool {
        self.addresses.wf() && self.index <= self.addresses@.len()
    }

    /// The next address.
    pub fn next(&mut self) -> (result: Option<UpstreamAddress<'url>>)
        requires
            old(self).wf(),
        ensures
            final(self).wf(),
            match result {
                Some(address) => {
                    &&& old(self)@.len() > 0
                    &&& address@ == old(self)@[0]
                    &&& address.wf()
                    &&& final(self)@ == old(self)@.skip(1)
                },
                None => old(self)@.len() == 0 && *final(self) == *old(self),
            },
    {
        match self.addresses.get(self.index) {
            Some(address) => {
                self.index = self.index + 1;
                assert(self@ =~= old(self)@.skip(1));
                Some(address)
            },
            None => None,
        }
    }
}

/// One checked address selected by nginx for a configured upstream URL.
#[derive(Clone, Copy, Debug)]
pub struct UpstreamAddress<'url> {
    raw: &'url NativeAddress,
}

impl<'url> UpstreamAddress<'url> {
    /// The address behind the view.
    pub closed spec fn view(self) -> NativeAddress {
        *self.raw
    }

    /// Whether the name of the address can be read.
    pub closed spec fn wf(self) -> bool {
        self.raw.name.readable()
    }

    /// Returns nginx's formatted address name.
    pub fn name(&self) -> (result: Result<&'url [u8], UpstreamUrlViewError>)
        requires
            self.wf(),
        ensures
            if self@.name.missing() {
                result matches Err(UpstreamUrlViewError::MissingStringData)
            } else {
                result matches Ok(bytes) && bytes@ == self@.name.bytes()
            },
    {
        checked_url_bytes(&self.raw.name)
    }

    /// Returns the selected native socket address as a checked generic address view.
    pub fn socket_address(&self) -> (result: Result<SocketAddress<'url>, UpstreamUrlViewError>)
        ensures
            match NativeSocketAddress::refused(self@.sockaddr, self@.socklen) {
                Some(error) => result matches Err(e) && e == UpstreamUrlViewError::SocketAddress(
                    error,
                ),
                None => result matches Ok(address) && self@.sockaddr == Pointer::To(address@),
            },
    {
        match SocketAddress::parse(&self.raw.sockaddr, self.raw.socklen) {
            Ok(address) => Ok(address),
            Err(error) => Err(UpstreamUrlViewError::from(error)),
        }
    }
}

} // verus!
