use ngx_http::native::{
    HttpConfigError, ModuleDescriptor, NativeConnection, NativePool, NativeRequest, NativeState,
    Pointer, NGX_HTTP_MODULE,
};
use ngx_http::request::view::RequestError;
use ngx_http::status::{
    NGX_ABORT, NGX_AGAIN, NGX_BUSY, NGX_DECLINED, NGX_DONE, NGX_ERROR, NGX_OK,
};
use ngx_http::upstream::callback::{
    HttpUpstreamInitializer, HttpUpstreamPeerHandler, UpstreamAction, UpstreamCallbackError,
    UpstreamCallbackSlot, UpstreamHandler, UpstreamLogRecord, NGX_LOG_EMERG, NGX_LOG_ERR,
};
use ngx_http::upstream::init::{
    install_upstream_initializer, raw_init_upstream, NativeConfiguration, OriginalUpstreamInit,
    UpstreamConfiguration, UpstreamInitStatus, UpstreamInitialization, UpstreamServerConf,
};
use ngx_http::upstream::peer::{
    observe_free_peer, raw_free_peer, raw_get_peer, raw_notify_peer, raw_save_session,
    raw_set_session, set_session_status, HttpUpstreamPeerData, NativePeer, NativeUpstream,
    OriginalPeerGet, OriginalPeerGetOutcome, PeerCall, PeerFreeBegin, PeerGetDecision,
    PeerSelectionState, UpstreamPeerConnection, UpstreamPeerSelection, UpstreamPeerState,
    PEER_DATA_MAGIC,
};
use ngx_http::upstream::peer_init::{
    begin_init_peer, finish_init_peer, raw_init_peer, OriginalPeerInit, UpstreamPeerInit,
    UpstreamPeerInitRequest, UpstreamPeerInitStatus,
};

const REQUEST: usize = 0x1000;
const POOL: usize = 0x2000;
const UPSTREAM: usize = 0x3000;
const PEER: usize = 0x3010;
const SERVER: usize = 0x4000;
const CONFIGURATION: usize = 0x5000;
const LOG: usize = 0x6000;

const BUSY_INIT_UPSTREAM: usize = 0x100;
const DELEGATED_BUSY_INIT_UPSTREAM: usize = 0x108;
const DECLINED_INIT_PEER: usize = 0x110;
const INCOMPLETE_INIT_PEER: usize = 0x118;
const ORDERED_INIT_PEER: usize = 0x120;
const STATUS_GET_PEER: usize = 0x128;
const INCOMPLETE_GET_PEER: usize = 0x130;
const ORDERED_GET_PEER: usize = 0x138;
const ORDERED_FREE_PEER: usize = 0x140;
const ORDERED_NOTIFY_PEER: usize = 0x148;
const ORDERED_SET_SESSION: usize = 0x150;
const ORDERED_SAVE_SESSION: usize = 0x158;
const ORIGINAL_DATA: usize = 0x7;
const OUTER_DATA: usize = 0x8;

fn module() -> ModuleDescriptor {
    ModuleDescriptor { type_: NGX_HTTP_MODULE, index: 0, ctx_index: 0 }
}

fn handler(id: usize) -> UpstreamHandler {
    UpstreamHandler {
        id,
        module: module(),
        init_upstream: 0x9000 + id,
        init_peer: 0xa000 + id,
        get_peer: 0xb000 + id,
        free_peer: 0xc000 + id,
        notify_peer: 0xd000 + id,
        set_session: 0xe000 + id,
        save_session: 0xf000 + id,
    }
}

fn configured() -> (NativeState, UpstreamServerConf) {
    let mut native = NativeState::new(1, 1);
    native.callback_slots.insert(CONFIGURATION, UpstreamCallbackSlot::new());
    let server = UpstreamServerConf {
        address: SERVER,
        srv_conf: Pointer::To(vec![CONFIGURATION]),
        init_upstream: None,
        init: None,
    };
    (native, server)
}

fn zeroed_peer() -> NativePeer {
    NativePeer {
        address: PEER,
        name: 0,
        sockaddr: 0,
        connection: 0,
        tries: 0,
        log: 0,
        get: None,
        free: None,
        notify: None,
        set_session: None,
        save_session: None,
        data: 0,
    }
}

fn initialized_request(native: &mut NativeState) {
    native.pools.insert(POOL, NativePool::new(vec![0x8040, 0x8030, 0x8020, 0x8010]));
    let mut request = NativeRequest::zeroed();
    request.signature = NGX_HTTP_MODULE;
    request.main = REQUEST;
    request.pool = POOL;
    request.upstream = UPSTREAM;
    native.requests.insert(REQUEST, request);
    native.upstreams.insert(UPSTREAM, NativeUpstream { peer: zeroed_peer() });
}

fn configuration() -> Pointer<NativeConfiguration> {
    Pointer::To(NativeConfiguration { pool: POOL, log: 0 })
}

fn peer_of(native: &NativeState) -> NativePeer {
    native.upstreams.get(&UPSTREAM).unwrap().peer
}

/// What the native upstream initializers of these tests return. The state counts their runs.
fn run_init_upstream(callback: usize, native: &mut NativeState) -> isize {
    native.next_owner += 1;
    match callback {
        BUSY_INIT_UPSTREAM | DELEGATED_BUSY_INIT_UPSTREAM => NGX_BUSY,
        _ => NGX_OK,
    }
}

/// What the native request peer initializers of these tests do and return.
fn run_init_peer(callback: usize, native: &mut NativeState) -> isize {
    native.next_owner += 1;
    match callback {
        DECLINED_INIT_PEER => NGX_DECLINED,
        ORDERED_INIT_PEER => {
            let peer = &mut native.upstreams.get_mut(&UPSTREAM).unwrap().peer;
            peer.data = ORIGINAL_DATA;
            peer.get = Some(ORDERED_GET_PEER);
            peer.free = Some(ORDERED_FREE_PEER);
            peer.notify = Some(ORDERED_NOTIFY_PEER);
            peer.set_session = Some(ORDERED_SET_SESSION);
            peer.save_session = Some(ORDERED_SAVE_SESSION);
            NGX_OK
        }
        _ => NGX_OK,
    }
}

struct DecliningInitializer;

impl HttpUpstreamInitializer for DecliningInitializer {
    fn init(
        _configuration: &UpstreamConfiguration,
        _native: &mut NativeState,
        _upstream: &mut UpstreamServerConf,
        _original: OriginalUpstreamInit,
    ) -> Result<UpstreamInitialization, UpstreamCallbackError> {
        Ok(UpstreamInitialization::Unavailable)
    }
}

struct DelegatingInitializer;

impl HttpUpstreamInitializer for DelegatingInitializer {
    fn init(
        _configuration: &UpstreamConfiguration,
        native: &mut NativeState,
        upstream: &mut UpstreamServerConf,
        original: OriginalUpstreamInit,
    ) -> Result<UpstreamInitialization, UpstreamCallbackError> {
        let pending = original.call()?;
        let status = run_init_upstream(pending.callback, native);
        match pending.finish(upstream, status)? {
            UpstreamInitStatus::Initialized => {
                Ok(UpstreamInitialization::Initialized(upstream.initialized()?))
            }
            UpstreamInitStatus::Unavailable => Ok(UpstreamInitialization::Unavailable),
        }
    }
}

struct PoolInitializer;

impl HttpUpstreamInitializer for PoolInitializer {
    fn init(
        configuration: &UpstreamConfiguration,
        _native: &mut NativeState,
        upstream: &mut UpstreamServerConf,
        _original: OriginalUpstreamInit,
    ) -> Result<UpstreamInitialization, UpstreamCallbackError> {
        let _ = configuration.pool()?;
        Ok(UpstreamInitialization::Initialized(upstream.initialized()?))
    }
}

struct TypedConfigurationInitializer;

impl HttpUpstreamInitializer for TypedConfigurationInitializer {
    fn init(
        _configuration: &UpstreamConfiguration,
        native: &mut NativeState,
        upstream: &mut UpstreamServerConf,
        _original: OriginalUpstreamInit,
    ) -> Result<UpstreamInitialization, UpstreamCallbackError> {
        let configuration = upstream.module_conf(native, module())?.unwrap();
        assert_eq!(configuration, CONFIGURATION);
        assert_eq!(upstream.module_conf_mut(native, module())?, Some(CONFIGURATION));
        native.next_owner = 42;
        Ok(UpstreamInitialization::Initialized(upstream.initialized()?))
    }
}

/// Delegates peer initialization, and selects no peer.
struct DelegatePeerInit;

impl HttpUpstreamPeerHandler for DelegatePeerInit {
    type Data = ();

    fn init(
        request: &mut UpstreamPeerInitRequest,
        native: &mut NativeState,
        _upstream: &mut UpstreamServerConf,
        original: OriginalPeerInit,
    ) -> Result<UpstreamPeerInit<()>, UpstreamCallbackError> {
        let pending = original.call()?;
        let status = run_init_peer(pending.callback, native);
        match pending.finish(request, native, status)? {
            UpstreamPeerInitStatus::Initialized => Ok(UpstreamPeerInit::Install(())),
            UpstreamPeerInitStatus::Unavailable => Ok(UpstreamPeerInit::Unavailable),
        }
    }

    fn get(
        _peer: &mut NativePeer,
        _data: &mut (),
        _original: &mut OriginalPeerGet,
    ) -> Result<UpstreamPeerSelection, UpstreamCallbackError> {
        Ok(UpstreamPeerSelection::Error)
    }

    fn free(
        _peer: &mut NativePeer,
        _data: &mut (),
        _state: UpstreamPeerState,
    ) -> Result<(), UpstreamCallbackError> {
        Ok(())
    }
}

/// Installs without initialization, and selects what the native selector selects. The peer's
/// number of tries stands for the status that the native selector returns.
struct MissingOriginalPeer;

impl HttpUpstreamPeerHandler for MissingOriginalPeer {
    type Data = Vec<usize>;

    fn init(
        _request: &mut UpstreamPeerInitRequest,
        _native: &mut NativeState,
        _upstream: &mut UpstreamServerConf,
        _original: OriginalPeerInit,
    ) -> Result<UpstreamPeerInit<Vec<usize>>, UpstreamCallbackError> {
        Ok(UpstreamPeerInit::Install(Vec::new()))
    }

    fn get(
        peer: &mut NativePeer,
        data: &mut Vec<usize>,
        original: &mut OriginalPeerGet,
    ) -> Result<UpstreamPeerSelection, UpstreamCallbackError> {
        let call = original.call()?;
        data.push(call.callback);
        data.push(call.data);
        data.push(peer.data);
        let status = match call.callback {
            ORDERED_GET_PEER => NGX_BUSY,
            _ => -(peer.tries as isize),
        };
        original.finish(&UpstreamPeerConnection::of(peer), status)
    }

    fn free(
        _peer: &mut NativePeer,
        data: &mut Vec<usize>,
        state: UpstreamPeerState,
    ) -> Result<(), UpstreamCallbackError> {
        data.push(state.bits());
        Ok(())
    }
}

/// Initializes as nginx does before it installs the handler above.
struct OrderedPeer;

impl HttpUpstreamPeerHandler for OrderedPeer {
    type Data = Vec<usize>;

    fn init(
        request: &mut UpstreamPeerInitRequest,
        native: &mut NativeState,
        _upstream: &mut UpstreamServerConf,
        original: OriginalPeerInit,
    ) -> Result<UpstreamPeerInit<Vec<usize>>, UpstreamCallbackError> {
        let pending = original.call()?;
        let status = run_init_peer(pending.callback, native);
        match pending.finish(request, native, status)? {
            UpstreamPeerInitStatus::Initialized => Ok(UpstreamPeerInit::Install(Vec::new())),
            UpstreamPeerInitStatus::Unavailable => Ok(UpstreamPeerInit::Unavailable),
        }
    }

    fn get(
        peer: &mut NativePeer,
        data: &mut Vec<usize>,
        original: &mut OriginalPeerGet,
    ) -> Result<UpstreamPeerSelection, UpstreamCallbackError> {
        MissingOriginalPeer::get(peer, data, original)
    }

    fn free(
        peer: &mut NativePeer,
        data: &mut Vec<usize>,
        state: UpstreamPeerState,
    ) -> Result<(), UpstreamCallbackError> {
        MissingOriginalPeer::free(peer, data, state)
    }
}

fn install_peer(
    native: &mut NativeState,
    server: &mut UpstreamServerConf,
    id: usize,
) -> Result<(), UpstreamCallbackError> {
    server.install_peer_initializer(native, handler(id))
}

#[test]
fn repeated_initializer_installation_is_rejected_before_publication() {
    let (mut native, mut server) = configured();
    server.init_upstream = Some(BUSY_INIT_UPSTREAM);

    assert_eq!(install_upstream_initializer(&mut server, &mut native, handler(1)), Ok(()));
    assert_eq!(server.init_upstream, Some(handler(1).init_upstream));
    server.init_upstream = Some(DELEGATED_BUSY_INIT_UPSTREAM);
    assert_eq!(
        install_upstream_initializer(&mut server, &mut native, handler(1)),
        Err(UpstreamCallbackError::DuplicateUpstreamInitializer)
    );
    assert_eq!(server.init_upstream, Some(DELEGATED_BUSY_INIT_UPSTREAM));
}

#[test]
fn repeated_peer_initializer_installation_is_rejected_before_publication() {
    let (mut native, mut server) = configured();
    server.init = Some(DECLINED_INIT_PEER);

    assert_eq!(install_peer(&mut native, &mut server, 1), Ok(()));
    assert_eq!(server.init, Some(handler(1).init_peer));
    server.init = Some(INCOMPLETE_INIT_PEER);
    assert_eq!(
        install_peer(&mut native, &mut server, 1),
        Err(UpstreamCallbackError::DuplicatePeerInitializer)
    );
    assert_eq!(server.init, Some(INCOMPLETE_INIT_PEER));
}

#[test]
fn initializer_slots_reject_a_foreign_upstream_generation() {
    let (mut native, mut server) = configured();
    initialized_request(&mut native);
    assert_eq!(install_upstream_initializer(&mut server, &mut native, handler(1)), Ok(()));
    assert_eq!(install_peer(&mut native, &mut server, 2), Ok(()));

    let mut foreign = Pointer::To(UpstreamServerConf {
        address: SERVER + 0x100,
        srv_conf: Pointer::To(vec![CONFIGURATION]),
        init_upstream: None,
        init: None,
    });
    let outcome = raw_init_upstream::<DecliningInitializer>(
        &mut native,
        &configuration(),
        &mut foreign,
        handler(1),
    );
    assert_eq!(outcome.status, NGX_ERROR);
    assert_eq!(
        server.original_upstream(&native, handler(3)).err(),
        Some(UpstreamCallbackError::ForeignUpstreamInitializer)
    );

    let outcome =
        raw_init_peer::<MissingOriginalPeer>(&mut native, REQUEST, &mut foreign, handler(2));
    assert_eq!(outcome.status, NGX_ERROR);
    assert!(outcome.data.is_none());
    assert_eq!(
        server.original_peer(&native, handler(3)).err(),
        Some(UpstreamCallbackError::ForeignPeerInitializer)
    );
}

#[test]
fn upstream_initializer_receives_its_saved_callback_and_rejects_invalid_inputs() {
    let (mut native, mut server) = configured();
    server.init_upstream = Some(BUSY_INIT_UPSTREAM);

    assert_eq!(install_upstream_initializer(&mut server, &mut native, handler(1)), Ok(()));
    assert_eq!(
        server.original_upstream(&native, handler(1)).unwrap().call().unwrap().callback,
        BUSY_INIT_UPSTREAM
    );
    let mut server = Pointer::To(server);
    let runs = native.next_owner;
    let outcome = raw_init_upstream::<DelegatingInitializer>(
        &mut native,
        &configuration(),
        &mut server,
        handler(1),
    );
    assert_eq!(outcome.status, NGX_ERROR);
    assert_eq!(outcome.record, None);
    assert_eq!(native.next_owner, runs + 1);
    for invalid in [Pointer::Null, Pointer::Misaligned] {
        let outcome = raw_init_upstream::<DelegatingInitializer>(
            &mut native,
            &invalid,
            &mut server,
            handler(1),
        );
        assert_eq!(outcome.status, NGX_ERROR);
        assert_eq!(outcome.record, None);
    }
    assert_eq!(native.next_owner, runs + 1);
    assert_eq!(
        UpstreamConfiguration::from_raw(&Pointer::Null).err(),
        Some(UpstreamCallbackError::NullConfiguration)
    );
    assert_eq!(
        UpstreamConfiguration::from_raw(&Pointer::Misaligned).err(),
        Some(UpstreamCallbackError::MisalignedConfiguration)
    );
}

#[test]
fn success_without_an_installed_peer_initializer_is_rejected() {
    let (mut native, mut server) = configured();
    assert_eq!(install_upstream_initializer(&mut server, &mut native, handler(1)), Ok(()));
    assert_eq!(server.initialized().err(), Some(UpstreamCallbackError::MissingPeerInitializer));
    let pending = {
        let mut other = configured();
        other.1.init_upstream = Some(BUSY_INIT_UPSTREAM);
        install_upstream_initializer(&mut other.1, &mut other.0, handler(1)).unwrap();
        other.1.original_upstream(&other.0, handler(1)).unwrap().call().unwrap()
    };
    assert_eq!(
        pending.finish(&server, NGX_OK),
        Err(UpstreamCallbackError::MissingPeerInitializer)
    );

    let outcome = raw_init_upstream::<PoolInitializer>(
        &mut native,
        &configuration(),
        &mut Pointer::To(server),
        handler(1),
    );
    assert_eq!(outcome.status, NGX_ERROR);
}

#[test]
fn peer_initializer_success_without_installing_callbacks_is_rejected() {
    let (mut native, mut server) = configured();
    initialized_request(&mut native);
    server.init = Some(INCOMPLETE_INIT_PEER);
    assert_eq!(install_peer(&mut native, &mut server, 1), Ok(()));

    let outcome = raw_init_peer::<DelegatePeerInit>(
        &mut native,
        REQUEST,
        &mut Pointer::To(server),
        handler(1),
    );
    assert_eq!(outcome.status, NGX_ERROR);
    assert!(peer_of(&native).get.is_none());
}

#[test]
fn selected_status_without_native_peer_state_is_rejected() {
    let (mut native, mut server) = configured();
    initialized_request(&mut native);
    assert_eq!(install_peer(&mut native, &mut server, 1), Ok(()));

    native.upstreams.get_mut(&UPSTREAM).unwrap().peer.get = Some(INCOMPLETE_GET_PEER);
    let outcome = raw_init_peer::<MissingOriginalPeer>(
        &mut native,
        REQUEST,
        &mut Pointer::To(server),
        handler(1),
    );
    assert_eq!(outcome.status, NGX_OK);
    let (typed_data, data) = outcome.data.unwrap();
    assert_eq!(peer_of(&native).data, typed_data);
    let outcome = raw_get_peer::<MissingOriginalPeer>(
        &mut Pointer::To(peer_of(&native)),
        &mut Pointer::To(data),
        handler(1),
    );
    assert_eq!(outcome.status, NGX_ERROR);
}

fn peer_data(original_get: Option<usize>) -> HttpUpstreamPeerData<Vec<usize>> {
    let mut peer = zeroed_peer();
    peer.get = original_get;
    peer.free = Some(ORDERED_FREE_PEER);
    peer.data = ORIGINAL_DATA;
    HttpUpstreamPeerData::new(handler(1), &peer, Vec::new())
}

fn original_call(
    peer: &NativePeer,
    status: isize,
) -> Result<UpstreamPeerSelection, UpstreamCallbackError> {
    let mut original = peer_data(Some(STATUS_GET_PEER)).begin_get().unwrap();
    assert_eq!(original.call(), Ok(PeerCall { callback: STATUS_GET_PEER, data: ORIGINAL_DATA }));
    original.finish(&UpstreamPeerConnection::of(peer), status)
}

#[test]
fn original_peer_selection_accepts_only_native_statuses_with_required_state() {
    let mut peer = zeroed_peer();

    for (status, expected) in [
        (NGX_ERROR, NGX_ERROR),
        (NGX_BUSY, NGX_BUSY),
        (NGX_DECLINED, NGX_DECLINED),
    ] {
        assert_eq!(original_call(&peer, status).unwrap().status(), expected);
    }

    assert_eq!(
        original_call(&peer, NGX_ABORT).err(),
        Some(UpstreamCallbackError::InvalidOriginalGetStatus(NGX_ABORT))
    );

    assert_eq!(
        original_call(&peer, NGX_OK).err(),
        Some(UpstreamCallbackError::MissingSelectedPeerName)
    );
    peer.name = 0x400;
    assert_eq!(
        original_call(&peer, NGX_OK).err(),
        Some(UpstreamCallbackError::MissingSelectedPeerAddress)
    );
    peer.sockaddr = 0x500;
    assert_eq!(original_call(&peer, NGX_OK).unwrap().status(), NGX_OK);

    peer.sockaddr = 0;
    assert_eq!(
        original_call(&peer, NGX_AGAIN).err(),
        Some(UpstreamCallbackError::MissingSelectedPeerConnection)
    );
    peer.connection = 0x600;
    assert_eq!(original_call(&peer, NGX_AGAIN).unwrap().status(), NGX_AGAIN);

    assert_eq!(original_call(&peer, NGX_DONE).unwrap().status(), NGX_DONE);
}

#[test]
fn selected_peer_fields_have_to_be_aligned() {
    let mut peer = zeroed_peer();
    peer.name = 0x401;
    peer.sockaddr = 0x501;
    peer.connection = 0x601;
    assert_eq!(
        original_call(&peer, NGX_OK).err(),
        Some(UpstreamCallbackError::MisalignedSelectedPeerName)
    );
    peer.name = 0x400;
    assert_eq!(
        original_call(&peer, NGX_OK).err(),
        Some(UpstreamCallbackError::MisalignedSelectedPeerAddress)
    );
    assert_eq!(
        original_call(&peer, NGX_DONE).err(),
        Some(UpstreamCallbackError::MisalignedSelectedPeerConnection)
    );
}

#[test]
fn upstream_initializer_reads_and_mutates_typed_server_configuration() {
    let (mut native, mut server) = configured();
    server.init = Some(DECLINED_INIT_PEER);

    assert_eq!(install_upstream_initializer(&mut server, &mut native, handler(1)), Ok(()));
    let outcome = raw_init_upstream::<TypedConfigurationInitializer>(
        &mut native,
        &configuration(),
        &mut Pointer::To(server),
        handler(1),
    );
    assert_eq!(outcome.status, NGX_OK);
    assert_eq!(native.next_owner, 42);
}

#[test]
fn upstream_initializer_delegates_and_validates_each_owner() {
    let (mut native, mut server) = configured();
    server.init_upstream = Some(DELEGATED_BUSY_INIT_UPSTREAM);
    assert_eq!(install_upstream_initializer(&mut server, &mut native, handler(1)), Ok(()));
    let runs = native.next_owner;
    let outcome = raw_init_upstream::<DelegatingInitializer>(
        &mut native,
        &configuration(),
        &mut Pointer::To(server),
        handler(1),
    );
    assert_eq!(outcome.status, NGX_ERROR);
    assert_eq!(native.next_owner, runs + 1);
    for mut invalid in [Pointer::Null, Pointer::Misaligned] {
        let outcome = raw_init_upstream::<DelegatingInitializer>(
            &mut native,
            &configuration(),
            &mut invalid,
            handler(1),
        );
        assert_eq!(outcome.status, NGX_ERROR);
    }

    let missing_pool = NativeConfiguration { pool: 0, log: LOG };
    let (mut native, mut server) = configured();
    assert_eq!(install_upstream_initializer(&mut server, &mut native, handler(1)), Ok(()));
    let outcome = raw_init_upstream::<PoolInitializer>(
        &mut native,
        &Pointer::To(missing_pool),
        &mut Pointer::To(server),
        handler(1),
    );
    assert_eq!(outcome.status, NGX_ERROR);
    assert_eq!(
        outcome.record.unwrap().error,
        UpstreamCallbackError::MissingConfigurationPool
    );

    let (mut native, mut server) = configured();
    assert_eq!(install_upstream_initializer(&mut server, &mut native, handler(1)), Ok(()));
    let outcome = raw_init_upstream::<DelegatingInitializer>(
        &mut native,
        &configuration(),
        &mut Pointer::To(server),
        handler(1),
    );
    assert_eq!(outcome.status, NGX_ERROR);
}

#[test]
fn peer_initializer_preserves_an_original_non_success_outcome() {
    let (mut native, mut server) = configured();
    initialized_request(&mut native);
    server.init = Some(DECLINED_INIT_PEER);
    assert_eq!(install_peer(&mut native, &mut server, 1), Ok(()));

    let runs = native.next_owner;
    let outcome = raw_init_peer::<DelegatePeerInit>(
        &mut native,
        REQUEST,
        &mut Pointer::To(server),
        handler(1),
    );
    assert_eq!(outcome.status, NGX_ERROR);
    assert_eq!(native.next_owner, runs + 1);
    let peer = peer_of(&native);
    assert_eq!(peer.data, 0);
    assert!(peer.get.is_none());
    assert!(peer.free.is_none());
}

#[test]
fn peer_initializer_rejects_missing_and_invalid_owners() {
    let mut native = NativeState::new(1, 1);
    initialized_request(&mut native);
    let mut server = Pointer::To(UpstreamServerConf {
        address: SERVER,
        srv_conf: Pointer::Null,
        init_upstream: None,
        init: None,
    });

    let outcome = raw_init_peer::<DelegatePeerInit>(&mut native, REQUEST, &mut server, handler(1));
    assert_eq!(outcome.status, NGX_ERROR);
    let peer = peer_of(&native);
    assert_eq!(peer.data, 0);
    assert!(peer.get.is_none());
    assert!(peer.free.is_none());

    let outcome = raw_init_peer::<MissingOriginalPeer>(
        &mut native,
        REQUEST,
        &mut Pointer::Null,
        handler(1),
    );
    assert_eq!(outcome.status, NGX_ERROR);

    native.requests.get_mut(&REQUEST).unwrap().upstream = 0;
    let outcome =
        raw_init_peer::<MissingOriginalPeer>(&mut native, REQUEST, &mut server, handler(1));
    assert_eq!(outcome.status, NGX_ERROR);
    native.requests.get_mut(&REQUEST).unwrap().upstream = 1;
    let outcome =
        raw_init_peer::<MissingOriginalPeer>(&mut native, REQUEST, &mut server, handler(1));
    assert_eq!(outcome.status, NGX_ERROR);

    native.requests.get_mut(&REQUEST).unwrap().upstream = UPSTREAM;
    native.pools.insert(POOL, NativePool::new(vec![0x8010]));
    let outcome = raw_init_peer::<MissingOriginalPeer>(
        &mut native,
        REQUEST,
        &mut Pointer::Misaligned,
        handler(1),
    );
    assert_eq!(outcome.status, NGX_ERROR);
}

/// A peer initialization with a logger that fails with `error` before its handler runs.
fn refused_initialization(
    mut native: NativeState,
    mut upstream: Pointer<UpstreamServerConf>,
    error: UpstreamCallbackError,
) {
    native.requests.get_mut(&REQUEST).unwrap().connection = Pointer::To(NativeConnection {
        log: Pointer::To(LOG),
        sent: 0,
        data: REQUEST,
        write: Pointer::Null,
    });
    let outcome =
        raw_init_peer::<MissingOriginalPeer>(&mut native, REQUEST, &mut upstream, handler(1));
    assert_eq!(outcome.status, NGX_ERROR);
    assert_eq!(
        outcome.record,
        Some(UpstreamLogRecord {
            level: NGX_LOG_ERR,
            log: LOG,
            action: UpstreamAction::PeerInitialization,
            error,
        })
    );
}

#[test]
fn peer_initialization_names_what_is_wrong() {
    let ready = || {
        let (mut native, mut server) = configured();
        initialized_request(&mut native);
        install_peer(&mut native, &mut server, 1).unwrap();
        (native, server)
    };
    let (native, _) = ready();
    refused_initialization(native, Pointer::Null, UpstreamCallbackError::NullUpstream);
    let (native, _) = ready();
    refused_initialization(native, Pointer::Misaligned, UpstreamCallbackError::MisalignedUpstream);
    let (mut native, server) = ready();
    native.requests.get_mut(&REQUEST).unwrap().upstream = 0;
    refused_initialization(
        native,
        Pointer::To(server),
        UpstreamCallbackError::MissingRequestUpstream,
    );
    let (mut native, server) = ready();
    native.requests.get_mut(&REQUEST).unwrap().upstream = 1;
    refused_initialization(
        native,
        Pointer::To(server),
        UpstreamCallbackError::MisalignedRequestUpstream,
    );
    let (mut native, server) = ready();
    native.requests.get_mut(&REQUEST).unwrap().pool = 0;
    refused_initialization(
        native,
        Pointer::To(server),
        UpstreamCallbackError::Request(RequestError::MissingPool),
    );
    let (mut native, server) = ready();
    native.pools.insert(POOL, NativePool::new(Vec::new()));
    refused_initialization(native, Pointer::To(server), UpstreamCallbackError::Allocation);
    let (native, mut server) = ready();
    server.srv_conf = Pointer::Null;
    refused_initialization(
        native,
        Pointer::To(server),
        UpstreamCallbackError::MissingInitializerConfiguration,
    );
    let (native, mut server) = ready();
    server.srv_conf = Pointer::Misaligned;
    refused_initialization(
        native,
        Pointer::To(server),
        UpstreamCallbackError::Configuration(HttpConfigError::MisalignedSlots),
    );
}

#[test]
fn peer_initialization_checks_the_request_again_after_the_handler() {
    for (destroy, upstream, expected) in [
        (true, UPSTREAM, UpstreamCallbackError::RequestDestroyedDuringPeerInitialization),
        (false, 0, UpstreamCallbackError::MissingRequestUpstream),
        (false, UPSTREAM + 8, UpstreamCallbackError::ReplacedRequestUpstream),
    ] {
        let (mut native, mut server) = configured();
        initialized_request(&mut native);
        native.requests.get_mut(&REQUEST).unwrap().connection = Pointer::To(NativeConnection {
            log: Pointer::To(LOG),
            sent: 0,
            data: REQUEST,
            write: Pointer::Null,
        });
        native.upstreams.insert(UPSTREAM + 8, NativeUpstream { peer: zeroed_peer() });
        install_peer(&mut native, &mut server, 1).unwrap();
        let mut begun =
            begin_init_peer(&mut native, REQUEST, &Pointer::To(server), handler(1)).unwrap();
        assert!(begun.progress.liveness.armed);
        assert_eq!(begun.request.log(&native), Ok(Some(LOG)));
        if destroy {
            begun.request.mark_destroyed();
            assert_eq!(begun.request.log(&native), Err(expected));
        }
        native.requests.get_mut(&REQUEST).unwrap().upstream = upstream;
        let outcome = finish_init_peer(
            &mut native,
            begun.request,
            &mut begun.progress,
            handler(1),
            Ok(UpstreamPeerInit::Install(())),
        );
        assert_eq!(outcome.status, NGX_ERROR);
        assert!(outcome.data.is_none());
        assert_eq!(begun.progress.liveness.armed, destroy);
        assert!(peer_of(&native).get.is_none());
        match outcome.record {
            Some(record) => assert_eq!(record.error, expected),
            None => assert!(destroy),
        }
    }
}

#[test]
fn peer_data_allocation_failure_installs_nothing() {
    let (mut native, mut server) = configured();
    initialized_request(&mut native);
    native.pools.insert(POOL, NativePool::new(vec![0x8020, 0x8010]));
    install_peer(&mut native, &mut server, 1).unwrap();
    let mut begun =
        begin_init_peer(&mut native, REQUEST, &Pointer::To(server), handler(1)).unwrap();
    let outcome = finish_init_peer(
        &mut native,
        begun.request,
        &mut begun.progress,
        handler(1),
        Ok(UpstreamPeerInit::Install(())),
    );
    assert_eq!(outcome.status, NGX_ERROR);
    assert!(peer_of(&native).get.is_none());
    assert!(native.pools.get(&POOL).unwrap().blocks.is_empty());
}

#[test]
fn peer_callbacks_delegate_with_the_original_data() {
    let (mut native, mut server) = configured();
    initialized_request(&mut native);
    server.init = Some(ORDERED_INIT_PEER);
    assert_eq!(install_peer(&mut native, &mut server, 1), Ok(()));

    let outcome = raw_init_peer::<OrderedPeer>(
        &mut native,
        REQUEST,
        &mut Pointer::To(server),
        handler(1),
    );
    assert_eq!(outcome.status, NGX_OK);
    let (typed_data, data) = outcome.data.unwrap();
    assert_ne!(typed_data, ORIGINAL_DATA);
    let mut peer = peer_of(&native);
    assert_eq!(peer.data, typed_data);
    assert_eq!(peer.get, Some(handler(1).get_peer));
    assert_eq!(peer.free, Some(handler(1).free_peer));
    assert_eq!(peer.notify, Some(handler(1).notify_peer));
    assert_eq!(peer.set_session, Some(handler(1).set_session));
    assert_eq!(peer.save_session, Some(handler(1).save_session));
    peer.data = OUTER_DATA;
    let mut peer = Pointer::To(peer);
    let mut data = Pointer::To(data);

    let outcome = raw_get_peer::<OrderedPeer>(&mut peer, &mut data, handler(1));
    assert_eq!(outcome.status, NGX_BUSY);
    match &data {
        Pointer::To(typed) => {
            assert_eq!(typed.value, vec![ORDERED_GET_PEER, ORIGINAL_DATA, OUTER_DATA]);
        }
        _ => unreachable!(),
    }

    let call = raw_notify_peer(&peer, &data, handler(1)).call;
    assert_eq!(call, Some(PeerCall { callback: ORDERED_NOTIFY_PEER, data: ORIGINAL_DATA }));
    let call = raw_set_session(&peer, &data, handler(1)).call;
    assert_eq!(call, Some(PeerCall { callback: ORDERED_SET_SESSION, data: ORIGINAL_DATA }));
    assert_eq!(set_session_status(Some(NGX_BUSY)), NGX_BUSY);
    assert_eq!(set_session_status(None), NGX_ERROR);
    let call = raw_save_session(&peer, &data, handler(1)).call;
    assert_eq!(call, Some(PeerCall { callback: ORDERED_SAVE_SESSION, data: ORIGINAL_DATA }));
    match peer {
        Pointer::To(peer) => assert_eq!(peer.data, OUTER_DATA),
        _ => unreachable!(),
    }
}

#[test]
fn selected_peer_is_released_once_before_the_next_selection() {
    let mut peer = zeroed_peer();
    peer.name = 0x400;
    peer.sockaddr = 0x500;
    peer.log = LOG;
    let mut peer = Pointer::To(peer);
    let mut data = Pointer::To(peer_data(Some(STATUS_GET_PEER)));

    assert_eq!(
        raw_get_peer::<MissingOriginalPeer>(&mut peer, &mut data, handler(1)).status,
        NGX_OK
    );
    let outcome = raw_get_peer::<MissingOriginalPeer>(&mut peer, &mut data, handler(1));
    assert_eq!(outcome.status, NGX_ERROR);
    assert_eq!(
        outcome.record.unwrap().error,
        UpstreamCallbackError::PeerSelectionPendingRelease
    );

    let begun = raw_free_peer(&peer, &mut data, 0x5a, handler(1));
    assert_eq!(
        begun,
        PeerFreeBegin::Run {
            call: Some(PeerCall { callback: ORDERED_FREE_PEER, data: ORIGINAL_DATA }),
            state: UpstreamPeerState(0x5a),
        }
    );
    match (&mut peer, &mut data) {
        (Pointer::To(peer), Pointer::To(typed)) => {
            let record =
                observe_free_peer::<MissingOriginalPeer>(peer, typed, UpstreamPeerState(0x5a));
            assert_eq!(record, None);
            assert_eq!(typed.value.last(), Some(&0x5a));
        }
        _ => unreachable!(),
    }
    match raw_free_peer(&peer, &mut data, 0, handler(1)) {
        PeerFreeBegin::Refused(Some(record)) => {
            assert_eq!(record.error, UpstreamCallbackError::PeerReleaseWithoutSelection);
            assert_eq!(record.action, UpstreamAction::PeerRelease);
        }
        other => panic!("{other:?}"),
    }
    assert_eq!(
        raw_get_peer::<MissingOriginalPeer>(&mut peer, &mut data, handler(1)).status,
        NGX_OK
    );
    match data {
        Pointer::To(typed) => assert_eq!(
            typed.selection,
            PeerSelectionState { generation: 2, active_generation: Some(2) }
        ),
        _ => unreachable!(),
    }
}

#[test]
fn selection_numbers_skip_zero() {
    let mut state = PeerSelectionState { generation: u64::MAX, active_generation: None };
    assert_eq!(state.begin(), Ok(1));
    assert_eq!(PeerSelectionState::default(), PeerSelectionState::new());
    assert_eq!(PeerSelectionState::new().begin(), Ok(1));
}

fn selection(generation_of: &mut HttpUpstreamPeerData<Vec<usize>>) -> UpstreamPeerSelection {
    let mut peer = zeroed_peer();
    peer.name = 0x400;
    peer.sockaddr = 0x500;
    let mut original = generation_of.begin_get().unwrap();
    original.call().unwrap();
    original.finish(&UpstreamPeerConnection::of(&peer), NGX_OK).unwrap()
}

#[test]
fn selections_that_the_handler_does_not_keep_are_released() {
    let release = Some(PeerCall { callback: ORDERED_FREE_PEER, data: ORIGINAL_DATA });
    let selected = OriginalPeerGetOutcome::Selected;

    let mut data = peer_data(Some(STATUS_GET_PEER));
    let kept = selection(&mut data);
    assert_eq!(
        data.complete_get(selected, 1, Ok(kept)),
        PeerGetDecision { result: Ok(NGX_OK), release: None }
    );
    assert_eq!(data.selection.active_generation, Some(1));

    let mut data = peer_data(Some(STATUS_GET_PEER));
    let stale = selection(&mut data);
    assert_eq!(
        data.complete_get(selected, 2, Ok(stale)),
        PeerGetDecision { result: Err(UpstreamCallbackError::ForeignSelectedPeer), release }
    );
    assert_eq!(data.selection.active_generation, None);

    assert_eq!(
        data.complete_get(selected, 2, Ok(UpstreamPeerSelection::Busy)),
        PeerGetDecision {
            result: Err(UpstreamCallbackError::DiscardedOriginalPeerSelection),
            release,
        }
    );
    assert_eq!(
        data.complete_get(selected, 2, Err(UpstreamCallbackError::Allocation)),
        PeerGetDecision { result: Err(UpstreamCallbackError::Allocation), release }
    );
    let foreign = selection(&mut data);
    assert_eq!(
        data.complete_get(OriginalPeerGetOutcome::NotCalled, 2, Ok(foreign)),
        PeerGetDecision { result: Err(UpstreamCallbackError::ForeignSelectedPeer), release: None }
    );
    assert_eq!(
        data.complete_get(
            OriginalPeerGetOutcome::Unselected,
            2,
            Ok(UpstreamPeerSelection::Declined)
        ),
        PeerGetDecision { result: Ok(NGX_DECLINED), release: None }
    );
}

#[test]
fn peer_callback_adapters_reject_null_inputs_without_unwinding() {
    let mut native = NativeState::new(1, 1);
    for request in [0, 1] {
        let outcome = raw_init_peer::<DelegatePeerInit>(
            &mut native,
            request,
            &mut Pointer::Null,
            handler(1),
        );
        assert_eq!(outcome.status, NGX_ERROR);
    }
    for mut invalid in [Pointer::Null, Pointer::Misaligned] {
        let outcome = raw_get_peer::<OrderedPeer>(&mut invalid, &mut Pointer::Null, handler(1));
        assert_eq!(outcome.status, NGX_ERROR);
    }
    let data: &mut Pointer<HttpUpstreamPeerData<Vec<usize>>> = &mut Pointer::Null;
    assert_eq!(
        raw_free_peer(&Pointer::Null, data, 0, handler(1)),
        PeerFreeBegin::Refused(None)
    );

    let mut peer = Pointer::To(zeroed_peer());
    let outcome = raw_get_peer::<OrderedPeer>(&mut peer, data, handler(1));
    assert_eq!(outcome.status, NGX_ERROR);
    assert_eq!(raw_free_peer(&peer, data, 0, handler(1)), PeerFreeBegin::Refused(None));
}

#[test]
fn absent_original_peer_callbacks_return_error_without_losing_typed_data() {
    let (mut native, mut server) = configured();
    initialized_request(&mut native);
    assert_eq!(install_peer(&mut native, &mut server, 1), Ok(()));

    let outcome = raw_init_peer::<MissingOriginalPeer>(
        &mut native,
        REQUEST,
        &mut Pointer::To(server),
        handler(1),
    );
    assert_eq!(outcome.status, NGX_OK);
    let (typed_data, data) = outcome.data.unwrap();
    let mut peer = Pointer::To(peer_of(&native));
    let mut data = Pointer::To(data);
    let outcome = raw_get_peer::<MissingOriginalPeer>(&mut peer, &mut data, handler(1));
    assert_eq!(outcome.status, NGX_ERROR);
    match &peer {
        Pointer::To(peer) => assert_eq!(peer.data, typed_data),
        _ => unreachable!(),
    }
    assert!(matches!(
        raw_free_peer(&peer, &mut data, 0x7, handler(1)),
        PeerFreeBegin::Refused(_)
    ));
    match &peer {
        Pointer::To(peer) => assert_eq!(peer.data, typed_data),
        _ => unreachable!(),
    }
}

#[test]
fn callback_errors_emit_one_record_from_the_configuration_request_or_peer_owner() {
    let (mut native, mut server) = configured();
    initialized_request(&mut native);
    assert_eq!(install_upstream_initializer(&mut server, &mut native, handler(1)), Ok(()));
    let outcome = raw_init_upstream::<DelegatingInitializer>(
        &mut native,
        &Pointer::To(NativeConfiguration { pool: POOL, log: LOG }),
        &mut Pointer::To(server),
        handler(1),
    );
    assert_eq!(outcome.status, NGX_ERROR);
    let record = outcome.record.unwrap();
    assert_eq!(record.level, NGX_LOG_EMERG);
    assert_eq!(record.log, LOG);
    assert_eq!(
        record.message(),
        "HTTP upstream initialization failed: upstream has no original initializer"
    );

    let (mut native, mut server) = configured();
    initialized_request(&mut native);
    native.requests.get_mut(&REQUEST).unwrap().connection = Pointer::To(NativeConnection {
        log: Pointer::To(LOG),
        sent: 0,
        data: REQUEST,
        write: Pointer::Null,
    });
    assert_eq!(install_peer(&mut native, &mut server, 1), Ok(()));
    let outcome = raw_init_peer::<DelegatePeerInit>(
        &mut native,
        REQUEST,
        &mut Pointer::To(server),
        handler(1),
    );
    assert_eq!(outcome.status, NGX_ERROR);
    let record = outcome.record.unwrap();
    assert_eq!(record.level, NGX_LOG_ERR);
    assert_eq!(
        record.message(),
        "HTTP upstream peer initialization failed: upstream has no original peer initializer"
    );

    let (mut native, mut server) = configured();
    initialized_request(&mut native);
    assert_eq!(install_peer(&mut native, &mut server, 2), Ok(()));
    let outcome = raw_init_peer::<MissingOriginalPeer>(
        &mut native,
        REQUEST,
        &mut Pointer::To(server),
        handler(2),
    );
    assert_eq!(outcome.status, NGX_OK);
    let mut peer = peer_of(&native);
    peer.log = LOG;
    let mut peer = Pointer::To(peer);
    let mut data = Pointer::To(outcome.data.unwrap().1);
    let outcome = raw_get_peer::<MissingOriginalPeer>(&mut peer, &mut data, handler(2));
    assert_eq!(outcome.status, NGX_ERROR);
    let record = outcome.record.unwrap();
    assert_eq!(record.level, NGX_LOG_ERR);
    assert_eq!(
        record.message(),
        "HTTP upstream peer selection failed: upstream has no original peer getter"
    );

    match raw_free_peer(&peer, &mut data, 0, handler(2)) {
        PeerFreeBegin::Refused(Some(record)) => {
            assert_eq!(record.level, NGX_LOG_ERR);
            assert!(record.message().starts_with("HTTP upstream peer release failed"));
        }
        other => panic!("{other:?}"),
    }
}

#[test]
fn peer_callback_adapters_reject_misaligned_explicit_typed_data() {
    let (mut native, mut server) = configured();
    initialized_request(&mut native);
    assert_eq!(install_peer(&mut native, &mut server, 1), Ok(()));
    let outcome = raw_init_peer::<MissingOriginalPeer>(
        &mut native,
        REQUEST,
        &mut Pointer::To(server),
        handler(1),
    );
    assert_eq!(outcome.status, NGX_OK);
    let mut peer = peer_of(&native);
    peer.log = LOG;
    let mut peer = Pointer::To(peer);
    let outcome =
        raw_get_peer::<MissingOriginalPeer>(&mut peer, &mut Pointer::Misaligned, handler(1));
    assert_eq!(outcome.status, NGX_ERROR);
    assert_eq!(outcome.record.unwrap().error, UpstreamCallbackError::MisalignedPeerData);
    let data: &mut Pointer<HttpUpstreamPeerData<()>> = &mut Pointer::Misaligned;
    match raw_free_peer(&peer, data, 0, handler(1)) {
        PeerFreeBegin::Refused(Some(record)) => {
            assert_eq!(record.error, UpstreamCallbackError::MisalignedPeerData);
        }
        other => panic!("{other:?}"),
    }
}

#[test]
fn peer_data_of_another_owner_is_refused() {
    let mut peer = zeroed_peer();
    peer.log = LOG;
    let peer = Pointer::To(peer);
    let owned = peer_data(None);
    assert_eq!(owned.magic, PEER_DATA_MAGIC);
    let data = Pointer::To(owned);
    let refused = raw_notify_peer(&peer, &data, handler(2));
    assert_eq!(refused.call, None);
    assert_eq!(
        refused.record.unwrap().message(),
        "HTTP upstream peer notification failed: upstream peer data belongs to another handler"
    );
    let mut moved = zeroed_peer();
    moved.address = PEER + 8;
    moved.log = LOG;
    let refused = raw_set_session(&Pointer::To(moved), &data, handler(1));
    assert_eq!(
        refused.record.unwrap().message(),
        "HTTP upstream peer session lookup failed: upstream peer data belongs to another handler"
    );
    let null: Pointer<HttpUpstreamPeerData<()>> = Pointer::Null;
    let refused = raw_save_session(&peer, &null, handler(1));
    assert_eq!(
        refused.record.unwrap().message(),
        "HTTP upstream peer session save failed: upstream peer data is null"
    );
    assert_eq!(UpstreamPeerConnection::from_raw(&peer).unwrap().tries(), 0);
}

#[test]
fn upstream_callback_errors_have_texts() {
    let configuration = UpstreamCallbackError::from(HttpConfigError::MisalignedSlots);
    let request = UpstreamCallbackError::from(RequestError::MissingPool);
    for (error, text) in [
        (UpstreamCallbackError::NullConfiguration, "upstream configuration is null"),
        (UpstreamCallbackError::NullPeer, "upstream peer is null"),
        (UpstreamCallbackError::MissingPeerGetter, "peer initialization installed no peer getter"),
        (
            UpstreamCallbackError::InvalidOriginalGetStatus(-6),
            "original peer getter returned unsupported status -6",
        ),
        (UpstreamCallbackError::Allocation, "failed to allocate upstream peer data"),
        (configuration, "failed to resolve upstream configuration"),
        (request, "failed to resolve upstream request state"),
    ] {
        assert_eq!(error.message(), text);
    }
}
