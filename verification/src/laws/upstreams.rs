//! Configured upstreams: URLs and their addresses, attempts, installed initializers.

use vstd::prelude::*;

use crate::native::{HttpConfigError, ModuleDescriptor, NativeState, NativeString, Pointer};
use crate::upstream::callback::{
    HttpUpstreamInitializer, UpstreamAction, UpstreamCallbackError, UpstreamCallbackOutcome,
    UpstreamCallbackSlot, UpstreamHandler, UpstreamLogRecord,
};
use crate::upstream::init::{
    install_upstream_initializer, raw_init_upstream, upstream_init_outcome, NativeConfiguration,
    OriginalUpstreamInit, PendingUpstreamInit, UpstreamConfiguration, UpstreamInitStatus,
    UpstreamInitialization, UpstreamInitialized, UpstreamServerConf,
};
use crate::upstream::peer_init::OriginalPeerInit;
use crate::upstream::state::{
    NativeStateArray, NativeUpstreamState, UpstreamState, UpstreamStateError, UpstreamStateIter,
    UpstreamStates,
};
use crate::upstream::url::{
    ConfiguredUpstreamUrl, NativeSocketAddress, NativeUrl, PendingUpstreamUrl, SocketAddress,
    SocketAddressError, SocketPort, UpstreamAddress, UpstreamAddressIter, UpstreamAddresses,
    UpstreamPort, UpstreamUrlMessage, UpstreamUrlParseError, UpstreamUrlViewError,
};

verus! {

/// A URL has no port exactly if its family is the Unix one. For every other family it has the
/// parsed port, as the default one exactly if the authority omitted its port. The Unix family is
/// number 1.
pub proof fn law_ports_are_absent_from_unix_urls_alone(url: ConfiguredUpstreamUrl, unix: i32)
    ensures
        forall|result: Option<UpstreamPort>| #[trigger]
            call_ensures(ConfiguredUpstreamUrl::port_outside, (&url, unix), result) ==> {
                &&& result is None <==> url@.family == unix
                &&& result matches Some(port) ==> port_is(port, url@)
            },
        forall|result: Option<UpstreamPort>| #[trigger]
            call_ensures(ConfiguredUpstreamUrl::port, (&url,), result) ==> {
                &&& result is None <==> url@.family == 1
                &&& result matches Some(port) ==> port_is(port, url@)
            },
        forall|port: UpstreamPort, value: SocketPort| #[trigger]
            call_ensures(UpstreamPort::value, (port,), value) ==> {
                &&& port matches UpstreamPort::Default(number) ==> value == number
                &&& port matches UpstreamPort::Explicit(number) ==> value == number
            },
        forall|number: u16, port: SocketPort| #[trigger]
            call_ensures(SocketPort::from_host_order, (number,), port) ==> port.0 == number,
        forall|port: SocketPort, number: u16| #[trigger]
            call_ensures(SocketPort::host_order, (port,), number) ==> number == port.0,
{
}

/// Whether `port` is the parsed port of a URL, with where it came from.
pub open spec fn port_is(port: UpstreamPort, url: NativeUrl) -> bool {
    &&& port is Default <==> url.no_port
    &&& port matches UpstreamPort::Default(number) ==> number.0 == url.port
    &&& port matches UpstreamPort::Explicit(number) ==> number.0 == url.port
}

/// Two URLs with the same port and the same mark have the same port, whatever their families are,
/// as long as neither is the Unix one.
pub proof fn law_ports_do_not_depend_on_the_internet_family(
    one: ConfiguredUpstreamUrl,
    other: ConfiguredUpstreamUrl,
    unix: i32,
)
    requires
        one@.family != unix,
        other@.family != unix,
        one@.port == other@.port,
        one@.no_port == other@.no_port,
    ensures
        forall|first: Option<UpstreamPort>, second: Option<UpstreamPort>|
            #![trigger call_ensures(ConfiguredUpstreamUrl::port_outside, (&one, unix), first),
                call_ensures(ConfiguredUpstreamUrl::port_outside, (&other, unix), second)]
            call_ensures(ConfiguredUpstreamUrl::port_outside, (&one, unix), first) && call_ensures(
                ConfiguredUpstreamUrl::port_outside,
                (&other, unix),
                second,
            ) ==> first == second && first is Some,
{
}

/// Whether `result` is the content of a native string, or says that it has none.
pub open spec fn url_string_read(
    value: NativeString,
    result: Result<&[u8], UpstreamUrlViewError>,
) -> bool {
    &&& result is Err <==> value.len > 0 && value.data is None
    &&& result matches Err(error) ==> error == UpstreamUrlViewError::MissingStringData
    &&& result matches Ok(bytes) ==> value.len == 0 ==> bytes@.len() == 0
    &&& result matches Ok(bytes) ==> value.len > 0 ==> bytes@ == value.data->0@.take(
        value.len as int,
    )
}

/// The input and the host of a URL are read from the URL and from the host.
pub proof fn law_url_strings_are_read(url: ConfiguredUpstreamUrl)
    ensures
        forall|result: Result<&[u8], UpstreamUrlViewError>| #[trigger]
            call_ensures(ConfiguredUpstreamUrl::input, (&url,), result) ==> url_string_read(
                url@.url,
                result,
            ),
        forall|result: Result<&[u8], UpstreamUrlViewError>| #[trigger]
            call_ensures(ConfiguredUpstreamUrl::host, (&url,), result) ==> url_string_read(
                url@.host,
                result,
            ),
        forall|address: &UpstreamAddress, result: Result<&[u8], UpstreamUrlViewError>| #[trigger]
            call_ensures(UpstreamAddress::name, (address,), result) ==> url_string_read(
                address@.name,
                result,
            ),
        forall|raw: NativeUrl, result: ConfiguredUpstreamUrl| #[trigger]
            call_ensures(ConfiguredUpstreamUrl::from_raw, (raw,), result) ==> result@ == raw,
{
}

/// Parsing copies the input and the default port for nginx, and takes two blocks. Nothing is parsed
/// of an empty input.
pub proof fn law_parsing_hands_the_input_on(pool: usize, input: &[u8], default_port: u16)
    ensures
        forall|
            native: &mut NativeState,
            result: Result<PendingUpstreamUrl, UpstreamUrlParseError>,
        | #[trigger]
            call_ensures(
                ConfiguredUpstreamUrl::parse,
                (native, pool, input, default_port),
                result,
            ) ==> {
                let blocks = native.pools@[pool].blocks@.len();
                &&& result is Ok <==> input@.len() > 0 && blocks >= 2
                &&& result matches Ok(pending) ==> pending.input() == input@
                    && pending.default_port() == default_port && pending.pool() == pool
                    && final(native).pools@[pool].blocks@.len() == blocks - 2
                &&& result matches Err(error) ==> {
                    &&& error is EmptyInput <==> input@.len() == 0
                    &&& error is Allocation <==> input@.len() > 0
                }
                &&& input@.len() == 0 ==> *final(native) == *native
                &&& final(native).requests == native.requests
            },
        forall|pending: &PendingUpstreamUrl, result: (&[u8], u16)| #[trigger]
            call_ensures(PendingUpstreamUrl::call, (pending,), result) ==> result.0@
                == pending.input() && result.1 == pending.default_port(),
{
}

/// A URL that nginx parsed is what the parser left, with the copied input; one that it refused is
/// an error with the parser's own diagnostic, if it gave one.
pub proof fn law_parsers_are_believed(
    pending: PendingUpstreamUrl,
    status: isize,
    parsed: NativeUrl,
    diagnostic: Option<Vec<u8>>,
)
    ensures
        forall|
            native: &mut NativeState,
            result: Result<ConfiguredUpstreamUrl, UpstreamUrlParseError>,
        | #[trigger]
            call_ensures(
                PendingUpstreamUrl::finish,
                (pending, native, status, parsed, diagnostic),
                result,
            ) ==> {
                let blocks = native.pools@[pending.pool()].blocks@.len();
                &&& result is Ok <==> status == 0
                &&& result matches Ok(url) ==> {
                    &&& url@.host == parsed.host
                    &&& url@.family == parsed.family
                    &&& url@.port == parsed.port
                    &&& url@.no_port == parsed.no_port
                    &&& url@.naddrs == parsed.naddrs
                    &&& url@.addrs == parsed.addrs
                    &&& url@.url.bytes() == pending.input()
                }
                &&& result matches Err(error) ==> {
                    &&& error is Native <==> diagnostic is None
                    &&& error is Allocation <==> diagnostic is Some && diagnostic->0@.len() > 0
                        && blocks == 0
                    &&& error is Invalid <==> diagnostic is Some && (diagnostic->0@.len() == 0
                        || blocks > 0)
                    &&& error matches UpstreamUrlParseError::Invalid(message) ==> message@
                        =~= diagnostic->0@
                }
                &&& final(native).requests == native.requests
            },
        forall|message: &UpstreamUrlMessage, result: &[u8]| #[trigger]
            call_ensures(UpstreamUrlMessage::as_bytes, (message,), result) ==> result@ == message@,
{
}

/// The addresses of a URL are those that nginx counted, in their order; they are refused exactly if
/// they cannot lie in memory or cannot be read. Each is had by its index and in turn.
pub proof fn law_addresses_come_in_their_order(url: ConfiguredUpstreamUrl)
    ensures
        forall|result: Result<UpstreamAddresses, UpstreamUrlViewError>| #[trigger]
            call_ensures(ConfiguredUpstreamUrl::addresses, (&url,), result) ==> {
                let fits = url@.naddrs * 32 <= isize::MAX;
                &&& result is Ok <==> fits && (url@.naddrs == 0 || url@.addrs is To)
                &&& result matches Err(error) ==> {
                    &&& error == UpstreamUrlViewError::AddressCountOverflow <==> !fits
                    &&& error == UpstreamUrlViewError::MissingAddresses <==> fits
                        && url@.addrs is Null
                    &&& error == UpstreamUrlViewError::MisalignedAddresses <==> fits
                        && url@.addrs is Misaligned
                }
                &&& result matches Ok(addresses) ==> url@.naddrs == 0 ==> addresses@.len() == 0
                &&& result matches Ok(addresses) ==> url@.naddrs > 0 ==> addresses@
                    == url@.addrs->To_0@.take(url@.naddrs as int)
            },
        forall|addresses: &UpstreamAddresses, result: usize| #[trigger]
            call_ensures(UpstreamAddresses::len, (addresses,), result) ==> result
                == addresses@.len(),
        forall|addresses: &UpstreamAddresses, result: bool| #[trigger]
            call_ensures(UpstreamAddresses::is_empty, (addresses,), result) ==> (result
                <==> addresses@.len() == 0),
        forall|addresses: &UpstreamAddresses, index: usize, result: Option<UpstreamAddress>|
         #[trigger]
            call_ensures(UpstreamAddresses::get, (addresses, index), result) ==> {
                &&& result is Some <==> index < addresses@.len()
                &&& result matches Some(address) ==> address@ == addresses@[index as int]
            },
        forall|addresses: &UpstreamAddresses, result: UpstreamAddressIter| #[trigger]
            call_ensures(UpstreamAddresses::iter, (addresses,), result) ==> result@ == addresses@,
        forall|iter: &mut UpstreamAddressIter, result: Option<UpstreamAddress>| #[trigger]
            call_ensures(UpstreamAddressIter::next, (iter,), result) ==> {
                &&& result is Some <==> iter@.len() > 0
                &&& result matches Some(address) ==> address@ == iter@[0] && final(iter)@.len()
                    == iter@.len() - 1 && forall|i: int|
                    0 <= i < final(iter)@.len() ==> #[trigger] final(iter)@[i] == iter@[i + 1]
                &&& result is None ==> *final(iter) == *iter
            },
{
}

/// A socket address is seen exactly if it can be read, its length reaches the size of its family
/// and the family is one of the three; then each part belongs to its own family.
pub proof fn law_socket_addresses_show_their_family(
    address: Pointer<NativeSocketAddress>,
    len: u32,
    view: SocketAddress,
    selected: UpstreamAddress,
)
    ensures
        forall|result: Result<SocketAddress, SocketAddressError>| #[trigger]
            call_ensures(SocketAddress::parse, (&address, len), result) ==> {
                &&& result is Ok <==> socket_readable(address, len)
                &&& result matches Ok(seen) ==> address == Pointer::To(seen@)
                &&& result matches Err(error) ==> socket_error(address, len, error)
            },
        forall|result: Result<SocketAddress, UpstreamUrlViewError>| #[trigger]
            call_ensures(UpstreamAddress::socket_address, (&selected,), result) ==> {
                &&& result is Ok <==> socket_readable(selected@.sockaddr, selected@.socklen)
                &&& result matches Ok(seen) ==> selected@.sockaddr == Pointer::To(seen@)
                &&& result matches Err(error) ==> error is SocketAddress && socket_error(
                    selected@.sockaddr,
                    selected@.socklen,
                    error->SocketAddress_0,
                )
            },
        forall|result: Option<[u8; 4]>| #[trigger]
            call_ensures(SocketAddress::ipv4_octets, (&view,), result) ==> {
                &&& result is Some <==> view@ is Inet
                &&& view@ matches NativeSocketAddress::Inet { port, octets } ==> result == Some(
                    octets,
                )
            },
        forall|result: Option<[u8; 16]>| #[trigger]
            call_ensures(SocketAddress::ipv6_octets, (&view,), result) ==> {
                &&& result is Some <==> view@ is Inet6
                &&& view@ matches NativeSocketAddress::Inet6 { port, octets } ==> result == Some(
                    octets,
                )
            },
        forall|result: Option<SocketPort>| #[trigger]
            call_ensures(SocketAddress::port, (&view,), result) ==> {
                &&& result is Some <==> view@ is Inet || view@ is Inet6
                &&& view@ matches NativeSocketAddress::Inet { port, octets } ==> result == Some(
                    SocketPort(port),
                )
                &&& view@ matches NativeSocketAddress::Inet6 { port, octets } ==> result == Some(
                    SocketPort(port),
                )
            },
        forall|result: Option<&[u8]>| #[trigger]
            call_ensures(SocketAddress::unix_path, (&view,), result) ==> {
                &&& result is Some <==> view@ is Unix
                &&& view@ matches NativeSocketAddress::Unix { path } ==> result->0@ == path@
            },
{
}

/// Whether a socket address of a length can be seen.
pub open spec fn socket_readable(address: Pointer<NativeSocketAddress>, len: u32) -> bool {
    address is To && (match address->To_0 {
        NativeSocketAddress::Inet { .. } => len >= 16,
        NativeSocketAddress::Inet6 { .. } => len >= 28,
        NativeSocketAddress::Unix { .. } => len >= 2,
        NativeSocketAddress::Other => false,
    })
}

/// Whether `error` says what is wrong with a socket address of a length.
pub open spec fn socket_error(
    address: Pointer<NativeSocketAddress>,
    len: u32,
    error: SocketAddressError,
) -> bool {
    &&& error == SocketAddressError::NullAddress <==> address is Null
    &&& error == SocketAddressError::MisalignedAddress <==> address is Misaligned
    &&& error == SocketAddressError::UnsupportedFamily <==> address is To && address->To_0 is Other
        && len >= 2
    &&& error == SocketAddressError::TruncatedAddress <==> address is To && (match address->To_0 {
        NativeSocketAddress::Inet { .. } => len < 16,
        NativeSocketAddress::Inet6 { .. } => len < 28,
        _ => len < 2,
    })
}

/// Each number of an attempt is shown under its own name; a status only if it is one.
pub proof fn law_attempts_are_shown_as_they_are(attempt: UpstreamState)
    ensures
        forall|result: usize| #[trigger]
            call_ensures(UpstreamState::response_time, (&attempt,), result) ==> result
                == attempt.0.response_time,
        forall|result: usize| #[trigger]
            call_ensures(UpstreamState::connect_time, (&attempt,), result) ==> result
                == attempt.0.connect_time,
        forall|result: usize| #[trigger]
            call_ensures(UpstreamState::header_time, (&attempt,), result) ==> result
                == attempt.0.header_time,
        forall|result: usize| #[trigger]
            call_ensures(UpstreamState::queue_time, (&attempt,), result) ==> result
                == attempt.0.queue_time,
        forall|result: i64| #[trigger]
            call_ensures(UpstreamState::bytes_sent, (&attempt,), result) ==> result
                == attempt.0.bytes_sent,
        forall|result: i64| #[trigger]
            call_ensures(UpstreamState::bytes_received, (&attempt,), result) ==> result
                == attempt.0.bytes_received,
        forall|result: i64| #[trigger]
            call_ensures(UpstreamState::response_length, (&attempt,), result) ==> result
                == attempt.0.response_length,
        forall|result: Option<u16>| #[trigger]
            call_ensures(UpstreamState::status, (&attempt,), result) ==> {
                &&& result is Some <==> 0 < attempt.0.status <= 65535
                &&& result matches Some(status) ==> status == attempt.0.status
            },
        forall|result: Result<Option<&[u8]>, UpstreamStateError>| #[trigger]
            call_ensures(UpstreamState::peer, (&attempt,), result) ==> {
                let peer = attempt.0.peer;
                let lacking = peer is To && peer->To_0.len > 0 && peer->To_0.data is None;
                &&& peer is Null ==> result is Ok && result->Ok_0 is None
                &&& peer is Misaligned ==> result is Err && result->Err_0
                    == UpstreamStateError::MisalignedPeer
                &&& lacking ==> result is Err && result->Err_0
                    == UpstreamStateError::MissingPeerData
                &&& peer is To && !lacking ==> result is Ok && result->Ok_0 is Some
                &&& peer is To && !lacking && peer->To_0.len > 0 ==> result->Ok_0->0@
                    == peer->To_0.data->0@.take(peer->To_0.len as int)
                &&& peer is To && peer->To_0.len == 0 ==> result->Ok_0->0@.len() == 0
            },
        forall|result: NativeUpstreamState| #[trigger]
            call_ensures(NativeUpstreamState::zeroed, (), result) ==> {
                &&& result.status == 0 && result.response_time == 0 && result.connect_time == 0
                &&& result.header_time == 0 && result.queue_time == 0 && result.response_length == 0
                &&& result.bytes_received == 0 && result.bytes_sent == 0 && result.peer is Null
            },
{
}

/// The attempts of a request are those that nginx counted, in their order; an array that does not
/// fit its records is refused.
pub proof fn law_attempts_come_in_their_order(array: Pointer<NativeStateArray>)
    ensures
        forall|result: Result<Option<UpstreamStates>, UpstreamStateError>| #[trigger]
            call_ensures(UpstreamStates::from_raw, (&array,), result) ==> {
                let raw = array->To_0;
                let fits = raw.size == 72 && raw.nelts <= raw.nalloc && (raw.elts is To
                    || raw.elts is Null && raw.nelts == 0);
                &&& array is Null ==> result is Ok && result->Ok_0 is None
                &&& array is Misaligned ==> result is Err && result->Err_0
                    == UpstreamStateError::MisalignedArray
                &&& array is To && !fits ==> result is Err && result->Err_0
                    == UpstreamStateError::InvalidArray
                &&& array is To && fits ==> result is Ok && result->Ok_0 is Some
                &&& array is To && fits && raw.elts is To ==> result->Ok_0->0@
                    == raw.elts->To_0@.take(raw.nelts as int)
                &&& array is To && fits && raw.elts is Null ==> result->Ok_0->0@.len() == 0
            },
        forall|states: &UpstreamStates, result: usize| #[trigger]
            call_ensures(UpstreamStates::len, (states,), result) ==> result == states@.len(),
        forall|states: &UpstreamStates, result: bool| #[trigger]
            call_ensures(UpstreamStates::is_empty, (states,), result) ==> (result
                <==> states@.len() == 0),
        forall|states: &UpstreamStates, index: usize, result: Option<&UpstreamState>| #[trigger]
            call_ensures(UpstreamStates::get, (states, index), result) ==> {
                &&& result is Some <==> index < states@.len()
                &&& result matches Some(state) ==> *state == states@[index as int]
            },
        forall|states: &UpstreamStates, result: UpstreamStateIter| #[trigger]
            call_ensures(UpstreamStates::iter, (states,), result) ==> result@ == states@,
        forall|iter: &mut UpstreamStateIter, result: Option<&UpstreamState>| #[trigger]
            call_ensures(UpstreamStateIter::next, (iter,), result) ==> {
                &&& result is Some <==> iter@.len() > 0
                &&& result matches Some(state) ==> *state == iter@[0] && final(iter)@.len()
                    == iter@.len() - 1 && forall|i: int|
                    0 <= i < final(iter)@.len() ==> #[trigger] final(iter)@[i] == iter@[i + 1]
                &&& result is None ==> *final(iter) == *iter
            },
{
}

/// A slot takes one initializer of each kind, saves what was there before, and answers only the
/// handler and the upstream that it was taken for. The two kinds do not disturb each other.
pub proof fn law_slots_are_taken_once(
    handler: UpstreamHandler,
    upstream: usize,
    original: Option<usize>,
    slot: UpstreamCallbackSlot,
)
    ensures
        forall|fresh: UpstreamCallbackSlot| #[trigger]
            call_ensures(UpstreamCallbackSlot::new, (), fresh) ==> fresh.upstream is None
                && fresh.peer is None && fresh.upstream_handler is None
                && fresh.peer_handler is None && fresh.original_upstream is None
                && fresh.original_peer is None,
        forall|before: &mut UpstreamCallbackSlot, result: Result<(), UpstreamCallbackError>|
         #[trigger]
            call_ensures(
                UpstreamCallbackSlot::install_upstream,
                (before, handler, upstream, original),
                result,
            ) ==> {
                &&& result is Ok <==> before.upstream is None
                &&& result is Ok ==> {
                    &&& final(before).upstream == Some(upstream)
                    &&& final(before).upstream_handler == Some(handler.id)
                    &&& final(before).original_upstream == original
                    &&& final(before).peer == before.peer
                    &&& final(before).peer_handler == before.peer_handler
                    &&& final(before).original_peer == before.original_peer
                }
                &&& result matches Err(error) ==> *final(before) == *before && error
                    == UpstreamCallbackError::DuplicateUpstreamInitializer
            },
        forall|before: &mut UpstreamCallbackSlot, result: Result<(), UpstreamCallbackError>|
         #[trigger]
            call_ensures(
                UpstreamCallbackSlot::install_peer,
                (before, handler, upstream, original),
                result,
            ) ==> {
                &&& result is Ok <==> before.peer is None
                &&& result is Ok ==> {
                    &&& final(before).peer == Some(upstream)
                    &&& final(before).peer_handler == Some(handler.id)
                    &&& final(before).original_peer == original
                    &&& final(before).upstream == before.upstream
                    &&& final(before).upstream_handler == before.upstream_handler
                    &&& final(before).original_upstream == before.original_upstream
                }
                &&& result matches Err(error) ==> *final(before) == *before && error
                    == UpstreamCallbackError::DuplicatePeerInitializer
            },
        forall|result: Result<OriginalUpstreamInit, UpstreamCallbackError>| #[trigger]
            call_ensures(
                UpstreamCallbackSlot::original_upstream,
                (&slot, handler, upstream),
                result,
            ) ==> {
                &&& result is Ok <==> slot.upstream == Some(upstream) && slot.upstream_handler
                    == Some(handler.id)
                &&& result matches Ok(saved) ==> saved.saved() == slot.original_upstream
                &&& result matches Err(error) ==> error
                    == UpstreamCallbackError::ForeignUpstreamInitializer
            },
        forall|result: Result<OriginalPeerInit, UpstreamCallbackError>| #[trigger]
            call_ensures(UpstreamCallbackSlot::original_peer, (&slot, handler, upstream), result)
                ==> {
                &&& result is Ok <==> slot.peer == Some(upstream) && slot.peer_handler == Some(
                    handler.id,
                )
                &&& result matches Ok(saved) ==> saved.saved() == slot.original_peer
                &&& result matches Err(error) ==> error
                    == UpstreamCallbackError::ForeignPeerInitializer
            },
{
}

/// Whether a module's slot in the server configuration of an upstream leads to `address`.
pub open spec fn slot_found(
    native: NativeState,
    upstream: UpstreamServerConf,
    module: ModuleDescriptor,
    address: usize,
) -> bool {
    &&& module.type_ == 0x50545448
    &&& module.index < native.max_module
    &&& module.ctx_index < native.http_max_module
    &&& upstream.srv_conf is To
    &&& upstream.srv_conf->To_0@[module.ctx_index as int] == address
    &&& address != 0
}

/// Whether `error` says why a module has no slot in the server configuration of an upstream.
pub open spec fn slot_error(
    native: NativeState,
    upstream: UpstreamServerConf,
    module: ModuleDescriptor,
    error: UpstreamCallbackError,
) -> bool {
    let registered = module.type_ == 0x50545448 && module.index < native.max_module
        && module.ctx_index < native.http_max_module;
    match error {
        UpstreamCallbackError::Configuration(HttpConfigError::WrongModuleType) => module.type_
            != 0x50545448,
        UpstreamCallbackError::Configuration(HttpConfigError::ModuleIndexOutOfBounds) =>
            module.index >= native.max_module || module.ctx_index >= native.http_max_module,
        UpstreamCallbackError::Configuration(HttpConfigError::MisalignedSlots) => registered
            && upstream.srv_conf is Misaligned,
        UpstreamCallbackError::MissingInitializerConfiguration => registered && (
        upstream.srv_conf is Null || upstream.srv_conf is To
            && upstream.srv_conf->To_0@[module.ctx_index as int] == 0),
        _ => false,
    }
}

/// A module's server configuration is what its own slot leads to.
pub proof fn law_server_configurations_are_found(
    native: NativeState,
    upstream: UpstreamServerConf,
    module: ModuleDescriptor,
)
    ensures
        forall|result: Result<usize, UpstreamCallbackError>| #[trigger]
            call_ensures(UpstreamServerConf::callback_slot, (&upstream, &native, module), result)
                ==> {
                &&& result matches Ok(address) ==> slot_found(native, upstream, module, address)
                &&& result matches Err(error) ==> slot_error(native, upstream, module, error)
            },
        forall|result: Result<Option<usize>, HttpConfigError>| #[trigger]
            call_ensures(UpstreamServerConf::module_conf, (&upstream, &native, module), result)
                ==> conf_shown(native, upstream, module, result),
        forall|changed: &mut UpstreamServerConf, result: Result<Option<usize>, HttpConfigError>|
         #[trigger]
            call_ensures(UpstreamServerConf::module_conf_mut, (changed, &native, module), result)
                ==> conf_shown(native, *changed, module, result) && *final(changed) == *changed,
        forall|result: Result<UpstreamInitialized, UpstreamCallbackError>| #[trigger]
            call_ensures(UpstreamServerConf::initialized, (&upstream,), result) ==> {
                &&& result is Ok <==> upstream.init is Some
                &&& result matches Ok(initialized) ==> initialized.upstream() == upstream.address
                &&& result matches Err(error) ==> error
                    == UpstreamCallbackError::MissingPeerInitializer
            },
{
}

/// Whether `result` is what a module's slot in the server configuration of an upstream holds.
pub open spec fn conf_shown(
    native: NativeState,
    upstream: UpstreamServerConf,
    module: ModuleDescriptor,
    result: Result<Option<usize>, HttpConfigError>,
) -> bool {
    match result {
        Ok(Some(address)) => slot_found(native, upstream, module, address),
        Ok(None) => slot_error(
            native,
            upstream,
            module,
            UpstreamCallbackError::MissingInitializerConfiguration,
        ),
        Err(error) => slot_error(
            native,
            upstream,
            module,
            UpstreamCallbackError::Configuration(error),
        ),
    }
}

/// Whether an upstream initializer of `handler` was installed in the slot at `address`, which saves
/// the one that was there before, and no other slot and nothing else changed.
pub open spec fn upstream_installed(
    native: NativeState,
    after: NativeState,
    upstream: UpstreamServerConf,
    upstream_after: UpstreamServerConf,
    handler: UpstreamHandler,
    address: usize,
) -> bool {
    let slot = after.callback_slots@[address];
    let slot_before = native.callback_slots@[address];
    &&& upstream_after.init_upstream == Some(handler.init_upstream)
    &&& upstream_after.init == upstream.init
    &&& upstream_after.address == upstream.address
    &&& upstream_after.srv_conf == upstream.srv_conf
    &&& slot.upstream == Some(upstream.address)
    &&& slot.upstream_handler == Some(handler.id)
    &&& slot.original_upstream == upstream.init_upstream
    &&& slot.peer == slot_before.peer && slot.peer_handler == slot_before.peer_handler
    &&& slot.original_peer == slot_before.original_peer
    &&& after.callback_slots@ == native.callback_slots@.insert(address, slot)
}

/// Whether a peer initializer of `handler` was installed in the slot at `address`, which saves the
/// one that was there before, and no other slot and nothing else changed.
pub open spec fn peer_installed(
    native: NativeState,
    after: NativeState,
    upstream: UpstreamServerConf,
    upstream_after: UpstreamServerConf,
    handler: UpstreamHandler,
    address: usize,
) -> bool {
    let slot = after.callback_slots@[address];
    let slot_before = native.callback_slots@[address];
    &&& upstream_after.init == Some(handler.init_peer)
    &&& upstream_after.init_upstream == upstream.init_upstream
    &&& upstream_after.address == upstream.address
    &&& upstream_after.srv_conf == upstream.srv_conf
    &&& slot.peer == Some(upstream.address)
    &&& slot.peer_handler == Some(handler.id)
    &&& slot.original_peer == upstream.init
    &&& slot.upstream == slot_before.upstream && slot.upstream_handler
        == slot_before.upstream_handler
    &&& slot.original_upstream == slot_before.original_upstream
    &&& after.callback_slots@ == native.callback_slots@.insert(address, slot)
}

/// An initializer is installed exactly if the handler's module has a slot that is free for its
/// kind. It then answers for the upstream in place of the one that the slot saves; a refusal
/// changes nothing.
pub proof fn law_initializers_are_installed_in_their_slot(handler: UpstreamHandler)
    ensures
        forall|
            upstream: &mut UpstreamServerConf,
            native: &mut NativeState,
            result: Result<(), UpstreamCallbackError>,
            address: usize,
        |
            #![trigger call_ensures(UpstreamServerConf::install_upstream, (upstream, native, handler), result),
                slot_found(*native, *upstream, handler.module, address)]
            call_ensures(
                UpstreamServerConf::install_upstream,
                (upstream, native, handler),
                result,
            ) && slot_found(*native, *upstream, handler.module, address) ==> {
                &&& result is Ok <==> native.callback_slots@[address].upstream is None
                &&& result is Ok ==> upstream_installed(
                    *native,
                    *final(native),
                    *upstream,
                    *final(upstream),
                    handler,
                    address,
                )
                &&& result matches Err(error) ==> error
                    == UpstreamCallbackError::DuplicateUpstreamInitializer
            },
        forall|
            upstream: &mut UpstreamServerConf,
            native: &mut NativeState,
            result: Result<(), UpstreamCallbackError>,
        | #[trigger]
            call_ensures(
                UpstreamServerConf::install_upstream,
                (upstream, native, handler),
                result,
            ) ==> {
                &&& result is Err ==> *final(upstream) == *upstream && *final(native) == *native
                &&& result is Err && result->Err_0
                    != UpstreamCallbackError::DuplicateUpstreamInitializer ==> slot_error(
                    *native,
                    *upstream,
                    handler.module,
                    result->Err_0,
                )
                &&& final(native).requests == native.requests && final(native).pools
                    == native.pools && final(native).upstreams == native.upstreams
            },
        forall|
            upstream: &mut UpstreamServerConf,
            native: &mut NativeState,
            result: Result<(), UpstreamCallbackError>,
            address: usize,
        |
            #![trigger call_ensures(install_upstream_initializer, (upstream, native, handler), result),
                slot_found(*native, *upstream, handler.module, address)]
            call_ensures(install_upstream_initializer, (upstream, native, handler), result)
                && slot_found(*native, *upstream, handler.module, address) ==> {
                &&& result is Ok <==> native.callback_slots@[address].upstream is None
                &&& result is Ok ==> upstream_installed(
                    *native,
                    *final(native),
                    *upstream,
                    *final(upstream),
                    handler,
                    address,
                )
                &&& result matches Err(error) ==> error
                    == UpstreamCallbackError::DuplicateUpstreamInitializer
            },
        forall|
            upstream: &mut UpstreamServerConf,
            native: &mut NativeState,
            result: Result<(), UpstreamCallbackError>,
        | #[trigger]
            call_ensures(install_upstream_initializer, (upstream, native, handler), result) ==> {
                &&& result is Err ==> *final(upstream) == *upstream && *final(native) == *native
                &&& result is Err && result->Err_0
                    != UpstreamCallbackError::DuplicateUpstreamInitializer ==> slot_error(
                    *native,
                    *upstream,
                    handler.module,
                    result->Err_0,
                )
            },
        forall|
            upstream: &mut UpstreamServerConf,
            native: &mut NativeState,
            result: Result<(), UpstreamCallbackError>,
            address: usize,
        |
            #![trigger call_ensures(UpstreamServerConf::install_peer_initializer, (upstream, native, handler), result),
                slot_found(*native, *upstream, handler.module, address)]
            call_ensures(
                UpstreamServerConf::install_peer_initializer,
                (upstream, native, handler),
                result,
            ) && slot_found(*native, *upstream, handler.module, address) ==> {
                &&& result is Ok <==> native.callback_slots@[address].peer is None
                &&& result is Ok ==> peer_installed(
                    *native,
                    *final(native),
                    *upstream,
                    *final(upstream),
                    handler,
                    address,
                )
                &&& result matches Err(error) ==> error
                    == UpstreamCallbackError::DuplicatePeerInitializer
            },
        forall|
            upstream: &mut UpstreamServerConf,
            native: &mut NativeState,
            result: Result<(), UpstreamCallbackError>,
        | #[trigger]
            call_ensures(
                UpstreamServerConf::install_peer_initializer,
                (upstream, native, handler),
                result,
            ) ==> {
                &&& result is Err ==> *final(upstream) == *upstream && *final(native) == *native
                &&& result is Err && result->Err_0
                    != UpstreamCallbackError::DuplicatePeerInitializer ==> slot_error(
                    *native,
                    *upstream,
                    handler.module,
                    result->Err_0,
                )
                &&& final(native).requests == native.requests && final(native).pools
                    == native.pools && final(native).upstreams == native.upstreams
            },
{
}

/// Whether a handler's upstream initializer is installed for an upstream in the slot at `address`.
pub open spec fn owns_upstream_slot(
    native: NativeState,
    upstream: UpstreamServerConf,
    handler: UpstreamHandler,
    address: usize,
) -> bool {
    &&& slot_found(native, upstream, handler.module, address)
    &&& native.callback_slots@[address].upstream == Some(upstream.address)
    &&& native.callback_slots@[address].upstream_handler == Some(handler.id)
}

/// The saved initializer is handed to the handler that was installed for the upstream, and to no
/// other; it can be called exactly if there was one.
pub proof fn law_saved_initializers_go_to_their_owner(
    native: NativeState,
    upstream: UpstreamServerConf,
    handler: UpstreamHandler,
    address: usize,
    saved: OriginalUpstreamInit,
    pending: PendingUpstreamInit,
    status: isize,
)
    ensures
        forall|result: Result<OriginalUpstreamInit, UpstreamCallbackError>| #[trigger]
            call_ensures(
                UpstreamServerConf::original_upstream,
                (&upstream, &native, handler),
                result,
            ) && slot_found(native, upstream, handler.module, address) ==> {
                &&& result is Ok <==> owns_upstream_slot(native, upstream, handler, address)
                &&& result matches Ok(original) ==> original.saved()
                    == native.callback_slots@[address].original_upstream
                &&& result matches Err(error) ==> error
                    == UpstreamCallbackError::ForeignUpstreamInitializer
            },
        forall|result: Result<OriginalPeerInit, UpstreamCallbackError>| #[trigger]
            call_ensures(
                UpstreamServerConf::original_peer,
                (&upstream, &native, handler),
                result,
            ) && slot_found(native, upstream, handler.module, address) ==> {
                let slot = native.callback_slots@[address];
                &&& result is Ok <==> slot.peer == Some(upstream.address) && slot.peer_handler
                    == Some(handler.id)
                &&& result matches Ok(original) ==> original.saved() == slot.original_peer
                &&& result matches Err(error) ==> error
                    == UpstreamCallbackError::ForeignPeerInitializer
            },
        forall|result: Result<PendingUpstreamInit, UpstreamCallbackError>| #[trigger]
            call_ensures(OriginalUpstreamInit::call, (saved,), result) ==> {
                &&& result is Ok <==> saved.saved() is Some
                &&& result matches Ok(running) ==> Some(running.callback) == saved.saved()
                &&& result matches Err(error) ==> error
                    == UpstreamCallbackError::MissingOriginalInitUpstream
            },
        forall|result: Result<UpstreamInitStatus, UpstreamCallbackError>| #[trigger]
            call_ensures(PendingUpstreamInit::finish, (pending, &upstream, status), result) ==> {
                &&& result == Ok::<UpstreamInitStatus, UpstreamCallbackError>(
                    UpstreamInitStatus::Initialized,
                ) <==> status == 0 && upstream.init is Some
                &&& result == Ok::<UpstreamInitStatus, UpstreamCallbackError>(
                    UpstreamInitStatus::Unavailable,
                ) <==> status != 0
                &&& result == Err::<UpstreamInitStatus, UpstreamCallbackError>(
                    UpstreamCallbackError::MissingPeerInitializer,
                ) <==> status == 0 && upstream.init is None
            },
{
}

/// Whether `record` reports `error` of an upstream initialization to the parser's logger, when it
/// has one.
pub open spec fn init_reported(
    record: Option<UpstreamLogRecord>,
    raw: NativeConfiguration,
    error: UpstreamCallbackError,
) -> bool {
    &&& record is Some <==> raw.log != 0
    &&& record matches Some(value) ==> value.level == 1 && value.log == raw.log && value.action
        == UpstreamAction::Initialization && value.error == error
}

/// Whether `outcome` is what a handler's result on an upstream initialization comes to.
pub open spec fn init_answered(
    outcome: UpstreamCallbackOutcome,
    raw: NativeConfiguration,
    returned: Result<UpstreamInitialization, UpstreamCallbackError>,
) -> bool {
    &&& outcome.status == 0 <==> returned is Ok && returned->Ok_0 is Initialized
    &&& outcome.status == -1 <==> !(returned is Ok && returned->Ok_0 is Initialized)
    &&& returned is Ok ==> outcome.record is None
    &&& returned matches Err(error) ==> init_reported(outcome.record, raw, error)
}

/// Nginx gets a success exactly if the handler says that the upstream is initialized; its errors
/// are reported.
pub proof fn law_initializations_answer_for_the_handler(
    configuration: UpstreamConfiguration,
    pointer: Pointer<NativeConfiguration>,
    returned: Result<UpstreamInitialization, UpstreamCallbackError>,
)
    ensures
        forall|outcome: UpstreamCallbackOutcome| #[trigger]
            call_ensures(upstream_init_outcome, (&configuration, returned), outcome)
                ==> init_answered(outcome, configuration.raw, returned),
        forall|result: Result<UpstreamConfiguration, UpstreamCallbackError>| #[trigger]
            call_ensures(UpstreamConfiguration::from_raw, (&pointer,), result) ==> {
                &&& result is Ok <==> pointer is To
                &&& result matches Ok(view) ==> view.raw == pointer->To_0
                &&& pointer is Null ==> result->Err_0 == UpstreamCallbackError::NullConfiguration
                &&& pointer is Misaligned ==> result->Err_0
                    == UpstreamCallbackError::MisalignedConfiguration
            },
        forall|result: Result<usize, UpstreamCallbackError>| #[trigger]
            call_ensures(UpstreamConfiguration::pool, (&configuration,), result) ==> {
                &&& result is Ok <==> configuration.raw.pool != 0 && configuration.raw.pool % 8 == 0
                &&& result matches Ok(pool) ==> pool == configuration.raw.pool
                &&& result matches Err(error) ==> error
                    == UpstreamCallbackError::MissingConfigurationPool
            },
{
}

/// A handler initializes an upstream exactly if the slot of its module says that it was installed
/// for it; everything else is an error that changes nothing.
pub proof fn law_handlers_initialize_their_own_upstream<H: HttpUpstreamInitializer>(
    configuration: Pointer<NativeConfiguration>,
    handler: UpstreamHandler,
)
    ensures
        forall|
            native: &mut NativeState,
            upstream: &mut Pointer<UpstreamServerConf>,
            outcome: UpstreamCallbackOutcome,
        |
            #![trigger call_ensures(raw_init_upstream::<H>, (native, &configuration, upstream, handler), outcome)]
            call_ensures(
                raw_init_upstream::<H>,
                (native, &configuration, upstream, handler),
                outcome,
            ) ==> {
                let server = upstream->To_0;
                let address = server.srv_conf->To_0@[handler.module.ctx_index as int];
                let runs = configuration is To && *upstream is To && owns_upstream_slot(
                    *native,
                    server,
                    handler,
                    address,
                );
                &&& outcome.status == 0 || outcome.status == -1
                &&& outcome.status == 0 ==> outcome.record is None
                &&& !runs ==> outcome.status == -1 && *final(native) == *native && *final(upstream)
                    == *upstream
                &&& configuration !is To ==> outcome.record is None
                &&& configuration is To && *upstream is Null ==> init_reported(
                    outcome.record,
                    configuration->To_0,
                    UpstreamCallbackError::NullUpstream,
                )
                &&& configuration is To && *upstream is Misaligned ==> init_reported(
                    outcome.record,
                    configuration->To_0,
                    UpstreamCallbackError::MisalignedUpstream,
                )
                &&& configuration is To && *upstream is To && slot_found(
                    *native,
                    server,
                    handler.module,
                    address,
                ) && !runs ==> init_reported(
                    outcome.record,
                    configuration->To_0,
                    UpstreamCallbackError::ForeignUpstreamInitializer,
                )
                &&& runs ==> exists|
                    parsed: &UpstreamConfiguration,
                    state: &mut NativeState,
                    given: &mut UpstreamServerConf,
                    original: OriginalUpstreamInit,
                    returned: Result<UpstreamInitialization, UpstreamCallbackError>,
                |
                    {
                        &&& #[trigger] call_ensures(
                            H::init,
                            (parsed, state, given, original),
                            returned,
                        )
                        &&& parsed.raw == configuration->To_0
                        &&& original.saved() == native.callback_slots@[address].original_upstream
                        &&& *state == *native && *final(state) == *final(native)
                        &&& *given == server && *final(upstream) == Pointer::To(*final(given))
                        &&& init_answered(outcome, configuration->To_0, returned)
                    }
            },
{
    assert forall|
        native: &mut NativeState,
        upstream: &mut Pointer<UpstreamServerConf>,
        outcome: UpstreamCallbackOutcome,
    |
        #![trigger call_ensures(raw_init_upstream::<H>, (native, &configuration, upstream, handler), outcome)]
        call_ensures(raw_init_upstream::<H>, (native, &configuration, upstream, handler), outcome)
            && configuration is To && *upstream is To && owns_upstream_slot(
            *native,
            upstream->To_0,
            handler,
            upstream->To_0.srv_conf->To_0@[handler.module.ctx_index as int],
        ) implies exists|
        parsed: &UpstreamConfiguration,
        state: &mut NativeState,
        given: &mut UpstreamServerConf,
        original: OriginalUpstreamInit,
        returned: Result<UpstreamInitialization, UpstreamCallbackError>,
    |
        {
            &&& #[trigger] call_ensures(H::init, (parsed, state, given, original), returned)
            &&& parsed.raw == configuration->To_0
            &&& original.saved()
                == native.callback_slots@[upstream->To_0.srv_conf->To_0@[handler.module.ctx_index as int]].original_upstream
            &&& *state == *native && *final(state) == *final(native)
            &&& *given == upstream->To_0 && *final(upstream) == Pointer::To(*final(given))
            &&& init_answered(outcome, configuration->To_0, returned)
        } by {
    }
}

} // verus!
