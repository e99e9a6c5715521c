use ngx_http::native::{NativePool, NativeState, NativeString, Pointer};
use ngx_http::status::{NGX_ERROR, NGX_OK};
use ngx_http::upstream::url::{
    ConfiguredUpstreamUrl, NativeAddress, NativeSocketAddress, NativeUrl, SocketAddressError,
    SocketPort, UpstreamPort, UpstreamUrlParseError, UpstreamUrlViewError,
};

const POOL: usize = 0x2000;

fn state(blocks: usize) -> NativeState {
    let mut native = NativeState::new(1, 1);
    let blocks = (1..=blocks).map(|number| number * 0x10).collect();
    native.pools.insert(POOL, NativePool::new(blocks));
    native
}

fn string(bytes: &[u8]) -> NativeString {
    NativeString { len: bytes.len(), data: Some(bytes.to_vec()) }
}

fn missing() -> NativeString {
    NativeString { len: 1, data: None }
}

fn zeroed() -> NativeUrl {
    NativeUrl {
        url: NativeString { len: 0, data: None },
        host: NativeString { len: 0, data: None },
        family: 0,
        port: 0,
        no_port: false,
        naddrs: 0,
        addrs: Pointer::Null,
    }
}

fn inet(octets: [u8; 4], port: u16, name: &[u8]) -> NativeAddress {
    NativeAddress {
        sockaddr: Pointer::To(NativeSocketAddress::Inet { port, octets }),
        socklen: 16,
        name: string(name),
    }
}

fn parsed(host: &[u8], family: i32, port: u16, no_port: bool, address: NativeAddress) -> NativeUrl {
    NativeUrl {
        url: NativeString { len: 0, data: None },
        host: string(host),
        family,
        port,
        no_port,
        naddrs: 1,
        addrs: Pointer::To(vec![address]),
    }
}

fn parse(input: &[u8], default_port: u16, url: NativeUrl) -> ConfiguredUpstreamUrl {
    let mut native = state(8);
    let pending =
        ConfiguredUpstreamUrl::parse(&mut native, POOL, input, default_port).unwrap();
    assert_eq!(pending.call(), (input, default_port));
    pending.finish(&mut native, NGX_OK, url, None).unwrap()
}

fn rejected(input: &[u8], diagnostic: Option<&[u8]>) -> UpstreamUrlParseError {
    let mut native = state(8);
    let pending = ConfiguredUpstreamUrl::parse(&mut native, POOL, input, 80).unwrap();
    let diagnostic = diagnostic.map(|bytes| bytes.to_vec());
    pending.finish(&mut native, NGX_ERROR, zeroed(), diagnostic).err().unwrap()
}

#[test]
fn configured_url_keeps_copied_input_and_default_port() {
    let mut input = *b"127.0.0.1";
    let mut native = state(8);
    let pending = ConfiguredUpstreamUrl::parse(&mut native, POOL, &input, 8080).unwrap();
    input.fill(b'!');
    let address = inet([127, 0, 0, 1], 8080, b"127.0.0.1:8080");
    let result = parsed(b"127.0.0.1", libc::AF_INET, 8080, true, address);
    let url = pending.finish(&mut native, NGX_OK, result, None).unwrap();

    assert_eq!(url.input().unwrap(), b"127.0.0.1");
    assert_eq!(url.host().unwrap(), b"127.0.0.1");
    assert_eq!(url.port(), Some(UpstreamPort::Default(SocketPort::from_host_order(8080))));
    assert_eq!(url.port().unwrap().value().host_order(), 8080);

    let addresses = url.addresses().unwrap();
    let selected = addresses.get(0).unwrap();
    let address = selected.socket_address().unwrap();
    assert_eq!(address.ipv4_octets(), Some([127, 0, 0, 1]));
    assert_eq!(address.port(), Some(SocketPort::from_host_order(8080)));
    assert_eq!(selected.name().unwrap(), b"127.0.0.1:8080");
}

#[test]
fn configured_url_preserves_explicit_ports_and_native_address_forms() {
    let address = inet([127, 0, 0, 1], 65535, b"127.0.0.1:65535");
    let result = parsed(b"127.0.0.1", libc::AF_INET, 65535, false, address);
    let ipv4 = parse(b"127.0.0.1:65535", 80, result);
    assert_eq!(ipv4.port(), Some(UpstreamPort::Explicit(SocketPort::from_host_order(65535))));

    let octets = [0, 0, 0, 0, 0, 0, 0, 0, 0, 0, 0, 0, 0, 0, 0, 1];
    let address = NativeAddress {
        sockaddr: Pointer::To(NativeSocketAddress::Inet6 { port: 8443, octets }),
        socklen: 28,
        name: string(b"[::1]:8443"),
    };
    let ipv6 = parse(
        b"[::1]:8443",
        80,
        parsed(b"[::1]", libc::AF_INET6, 8443, false, address),
    );
    let addresses = ipv6.addresses().unwrap();
    let selected = addresses.get(0).unwrap();
    let address = selected.socket_address().unwrap();
    assert_eq!(address.ipv6_octets(), Some(octets));
    assert_eq!(address.ipv4_octets(), None);
    assert_eq!(address.port(), Some(SocketPort::from_host_order(8443)));

    let mut path = b"/tmp/ngx-rust-upstream.sock".to_vec();
    path.resize(108, 0);
    let address = NativeAddress {
        sockaddr: Pointer::To(NativeSocketAddress::Unix { path }),
        socklen: 110,
        name: string(b"unix:/tmp/ngx-rust-upstream.sock"),
    };
    let unix = parse(
        b"unix:/tmp/ngx-rust-upstream.sock",
        80,
        parsed(b"/tmp/ngx-rust-upstream.sock", libc::AF_UNIX, 0, false, address),
    );
    assert_eq!(unix.port(), None);
    let addresses = unix.addresses().unwrap();
    let selected = addresses.get(0).unwrap();
    let address = selected.socket_address().unwrap();
    let path = address.unix_path().unwrap();
    assert!(path.starts_with(b"/tmp/ngx-rust-upstream.sock"));
    assert!(path[b"/tmp/ngx-rust-upstream.sock".len()..].iter().all(|byte| *byte == 0));
    assert_eq!(address.port(), None);

    let address = inet([127, 0, 0, 1], 0, b"127.0.0.1:0");
    let hostname =
        parse(b"localhost", 0, parsed(b"localhost", libc::AF_INET, 0, true, address));
    assert_eq!(hostname.port(), Some(UpstreamPort::Default(SocketPort::from_host_order(0))));
    assert!(!hostname.addresses().unwrap().is_empty());
}

#[test]
fn configured_url_copies_native_parser_errors() {
    let mut native = state(8);
    assert!(matches!(
        ConfiguredUpstreamUrl::parse(&mut native, POOL, b"", 80),
        Err(UpstreamUrlParseError::EmptyInput)
    ));
    assert!(matches!(
        rejected(b"127.0.0.1:0", Some(b"invalid port")),
        UpstreamUrlParseError::Invalid(message) if !message.as_bytes().is_empty()
    ));
    assert!(matches!(
        rejected(b"[::1", Some(b"invalid host")),
        UpstreamUrlParseError::Invalid(message) if message.as_bytes() == b"invalid host"
    ));
}

#[test]
fn parser_errors_show_their_diagnostic() {
    let mut native = state(8);
    let empty = ConfiguredUpstreamUrl::parse(&mut native, POOL, b"", 80).err().unwrap();
    assert_eq!(empty.message(), "upstream URL is empty");
    assert_eq!(
        rejected(b"h\xc3\xb6st", Some(b"no h\xc3\xb6st")).message(),
        "nginx rejected upstream URL: no h\u{f6}st"
    );
    assert_eq!(
        rejected(b"host", Some(b"\xff\xfe")).message(),
        "nginx rejected upstream URL: invalid"
    );
    assert_eq!(rejected(b"host", None).message(), "nginx rejected upstream URL");
    assert_eq!(
        rejected(b"host", Some(b"")).message(),
        "nginx rejected upstream URL: "
    );
}

#[test]
fn parser_storage_that_is_refused_is_reported() {
    for blocks in 0..2 {
        let mut native = state(blocks);
        let error = ConfiguredUpstreamUrl::parse(&mut native, POOL, b"host", 80).err().unwrap();
        assert!(matches!(error, UpstreamUrlParseError::Allocation));
        assert_eq!(error.message(), "failed to allocate upstream URL data");
    }
    let mut native = state(2);
    let pending = ConfiguredUpstreamUrl::parse(&mut native, POOL, b"host", 80).unwrap();
    assert!(matches!(
        pending.finish(&mut native, NGX_ERROR, zeroed(), Some(b"no host".to_vec())),
        Err(UpstreamUrlParseError::Allocation)
    ));
}

#[test]
fn configured_url_validates_selected_address_storage() {
    let mut raw = zeroed();
    raw.naddrs = 1;
    let url = ConfiguredUpstreamUrl::from_raw(raw);
    assert!(matches!(url.addresses(), Err(UpstreamUrlViewError::MissingAddresses)));

    let mut raw = zeroed();
    raw.naddrs = 1;
    raw.addrs = Pointer::Misaligned;
    let url = ConfiguredUpstreamUrl::from_raw(raw);
    assert!(matches!(url.addresses(), Err(UpstreamUrlViewError::MisalignedAddresses)));

    let mut raw = zeroed();
    raw.naddrs = usize::MAX;
    let url = ConfiguredUpstreamUrl::from_raw(raw);
    assert!(matches!(url.addresses(), Err(UpstreamUrlViewError::AddressCountOverflow)));

    let mut raw = zeroed();
    raw.naddrs = 4;
    raw.addrs = Pointer::To(vec![
        NativeAddress { sockaddr: Pointer::Null, socklen: 0, name: missing() },
        NativeAddress {
            sockaddr: Pointer::To(NativeSocketAddress::Inet { port: 0, octets: [0; 4] }),
            socklen: 1,
            name: missing(),
        },
        NativeAddress { sockaddr: Pointer::Misaligned, socklen: 0, name: missing() },
        NativeAddress {
            sockaddr: Pointer::To(NativeSocketAddress::Other),
            socklen: 16,
            name: missing(),
        },
    ]);
    raw.host = missing();
    let url = ConfiguredUpstreamUrl::from_raw(raw);
    let addresses = url.addresses().unwrap();
    let expected = [
        SocketAddressError::NullAddress,
        SocketAddressError::TruncatedAddress,
        SocketAddressError::MisalignedAddress,
        SocketAddressError::UnsupportedFamily,
    ];
    for (index, error) in expected.into_iter().enumerate() {
        let selected = addresses.get(index).unwrap();
        assert_eq!(
            selected.socket_address().err(),
            Some(UpstreamUrlViewError::SocketAddress(error))
        );
        assert_eq!(selected.name(), Err(UpstreamUrlViewError::MissingStringData));
    }
    assert!(addresses.get(4).is_none());
    assert_eq!(url.host(), Err(UpstreamUrlViewError::MissingStringData));
}

#[test]
fn view_errors_have_their_texts() {
    for (error, text) in [
        (UpstreamUrlViewError::MissingStringData, "upstream URL string has no data"),
        (UpstreamUrlViewError::AddressCountOverflow, "upstream URL address count is too large"),
        (UpstreamUrlViewError::MissingAddresses, "upstream URL has no address array"),
        (UpstreamUrlViewError::MisalignedAddresses, "upstream URL address array is misaligned"),
        (
            UpstreamUrlViewError::from(SocketAddressError::NullAddress),
            "upstream URL has an invalid address",
        ),
    ] {
        assert_eq!(error.message(), text);
    }
}

#[test]
fn configured_url_iterates_multiple_selected_addresses_in_order() {
    let mut raw = zeroed();
    raw.naddrs = 2;
    raw.addrs = Pointer::To(vec![
        inet([127, 0, 0, 1], 8080, b"127.0.0.1:8080"),
        inet([127, 0, 0, 2], 8081, b"127.0.0.2:8081"),
    ]);
    let url = ConfiguredUpstreamUrl::from_raw(raw);
    let addresses = url.addresses().unwrap();

    assert_eq!(addresses.len(), 2);
    let first_selected = addresses.iter().next().unwrap();
    let first = first_selected.socket_address().unwrap();
    let second_selected = addresses.get(1).unwrap();
    let second = second_selected.socket_address().unwrap();
    assert_eq!(first.ipv4_octets(), Some([127, 0, 0, 1]));
    assert_eq!(first.port(), Some(SocketPort::from_host_order(8080)));
    assert_eq!(second.ipv4_octets(), Some([127, 0, 0, 2]));
    assert_eq!(second.port(), Some(SocketPort::from_host_order(8081)));

    let mut iter = addresses.iter();
    assert!(iter.next().is_some());
    assert_eq!(iter.next().unwrap().name().unwrap(), b"127.0.0.2:8081");
    assert!(iter.next().is_none());
}
