//! Initialization of a request's upstream peer.

use vstd::prelude::*;

use crate::native::{is_aligned, NativePool, NativeState, Pointer};
use crate::request::view::RequestRefMut;
use crate::status::{NGX_ERROR, NGX_OK};
use crate::upstream::callback::{
    HttpUpstreamPeerHandler, UpstreamAction, UpstreamCallbackError, UpstreamCallbackSlot,
    UpstreamHandler, UpstreamLogRecord, NGX_LOG_ERR,
};
use crate::upstream::init::UpstreamServerConf;
use crate::upstream::peer::{HttpUpstreamPeerData, NativeUpstream};

verus! {

/// Checked result returned by a saved native request peer initializer.
#[derive(Clone, Copy, Debug, PartialEq, Eq, Structural)]
pub enum UpstreamPeerInitStatus {
    /// The native initializer succeeded and installed a peer getter.
    Initialized,
    /// The native initializer returned a non-success status.
    Unavailable,
}

/// Capability to invoke one saved request peer initializer.
///
/// The installation slot makes this capability only for its handler and upstream. Calling it
/// consumes the capability, so one handler invocation cannot delegate twice.
#[derive(Debug)]
pub struct OriginalPeerInit {
    callback: Option<usize>,
}

impl OriginalPeerInit {
    /// The saved initializer, by its address.
    pub closed spec fn saved(self) -> Option<usize> {
        self.callback
    }

    /// The capability to invoke a saved initializer.
    pub(crate) fn new(callback: Option<usize>) -> (result: Self)
        ensures
            result.saved() == callback,
    {
        OriginalPeerInit { callback }
    }

    /// Delegates to the saved request peer initializer with its original nginx arguments.
    ///
    /// What the initializer returned is handed to [`PendingPeerInit::finish`].
    pub fn call(self) -> (result: Result<PendingPeerInit, UpstreamCallbackError>)
        ensures
            match self.saved() {
                Some(callback) => result matches Ok(pending) && pending.callback == callback,
                None => result matches Err(UpstreamCallbackError::MissingOriginalInitPeer),
            },
    {
        match self.callback {
            Some(callback) => Ok(PendingPeerInit { callback }),
            None => Err(UpstreamCallbackError::MissingOriginalInitPeer),
        }
    }
}

impl NativeState {
    /// The upstream of a request, by its address, or what is wrong with it.
    pub open spec fn upstream_of(self, raw: usize) -> Result<usize, UpstreamCallbackError> {
        let upstream = self.requests@[raw].upstream;
        if upstream == 0 {
            Err(UpstreamCallbackError::MissingRequestUpstream)
        } else if !Self::aligned(upstream) {
            Err(UpstreamCallbackError::MisalignedRequestUpstream)
        } else {
            Ok(upstream)
        }
    }

    /// Whether a request that is still alive, and its upstream, can be read.
    pub open spec fn peer_request_ready(self, raw: usize) -> bool {
        &&& self.requests@.contains_key(raw)
        &&& self.upstream_of(raw) matches Ok(upstream) ==> self.upstreams@.contains_key(upstream)
    }

    /// The saved peer initializer that a handler of the upstream may call, or why it may not.
    pub open spec fn saved_peer(
        self,
        upstream: UpstreamServerConf,
        handler: UpstreamHandler,
    ) -> Result<Option<usize>, UpstreamCallbackError> {
        match self.slot_of(upstream, handler.module) {
            Err(error) => Err(error),
            Ok(address) => if self.callback_slots@[address].owns_peer(handler, upstream.address) {
                Ok(self.callback_slots@[address].original_peer)
            } else {
                Err(UpstreamCallbackError::ForeignPeerInitializer)
            },
        }
    }

    /// The record of a failed peer initialization, when the request has a logger.
    pub open spec fn peer_init_record(self, raw: usize, error: UpstreamCallbackError) -> Option<
        UpstreamLogRecord,
    > {
        match self.log_of(raw) {
            Ok(Some(log)) => Some(
                UpstreamLogRecord {
                    level: NGX_LOG_ERR,
                    log,
                    action: UpstreamAction::PeerInitialization,
                    error,
                },
            ),
            _ => None,
        }
    }
}

/// The record of a failed peer initialization, when the request has a logger.
fn log_request_failure(
    request: &RequestRefMut,
    native: &NativeState,
    error: UpstreamCallbackError,
) -> (result: Option<UpstreamLogRecord>)
    requires
        native.requests@.contains_key(request.raw),
    ensures
        result == native.peer_init_record(request.raw, error),
{
    match request.log(native) {
        Ok(Some(log)) => Some(
            UpstreamLogRecord {
                level: NGX_LOG_ERR,
                log,
                action: UpstreamAction::PeerInitialization,
                error,
            },
        ),
        _ => None,
    }
}

/// A saved request peer initializer that is about to run.
#[derive(Debug)]
pub struct PendingPeerInit {
    /// The initializer, by its address.
    pub callback: usize,
}

impl PendingPeerInit {
    /// Checks what the initializer left behind, given the status that it returned.
    pub fn finish(
        self,
        request: &UpstreamPeerInitRequest,
        native: &NativeState,
        status: isize,
    ) -> (result: Result<UpstreamPeerInitStatus, UpstreamCallbackError>)
        requires
            request.live() ==> native.peer_request_ready(request.raw()),
        ensures
            result == (if !request.live() {
                Err(UpstreamCallbackError::RequestDestroyedDuringPeerInitialization)
            } else if status != NGX_OK {
                Ok(UpstreamPeerInitStatus::Unavailable)
            } else {
                match native.upstream_of(request.raw()) {
                    Err(error) => Err(error),
                    Ok(upstream) => if native.upstreams@[upstream].peer.get is None {
                        Err(UpstreamCallbackError::MissingPeerGetter)
                    } else {
                        Ok(UpstreamPeerInitStatus::Initialized)
                    },
                }
            }),
    {
        match request.ensure_live() {
            Ok(()) => {},
            Err(error) => return Err(error),
        }
        if status != NGX_OK {
            return Ok(UpstreamPeerInitStatus::Unavailable);
        }
        let upstream = match request.upstream(native) {
            Ok(upstream) => upstream,
            Err(error) => return Err(error),
        };
        if native.upstream(upstream).peer.get.is_none() {
            return Err(UpstreamCallbackError::MissingPeerGetter);
        }
        Ok(UpstreamPeerInitStatus::Initialized)
    }
}

/// Request peer-initialization capability without terminal request authority.
///
/// Only callback-safe logging is exposed.
#[derive(Debug)]
pub struct UpstreamPeerInitRequest {
    request: RequestRefMut,
    live: bool,
}

impl UpstreamPeerInitRequest {
    /// The request, by its address.
    pub closed spec fn raw(self) -> usize {
        self.request.raw
    }

    /// Whether the request pool still exists.
    pub closed spec fn live(self) -> bool {
        self.live
    }

    /// Records that the request pool was destroyed. The pool's cleanup calls this.
    pub fn mark_destroyed(&mut self)
        ensures
            final(self).raw() == old(self).raw(),
            !final(self).live(),
    {
        self.live = false;
    }

    /// Fails once the request pool was destroyed.
    fn ensure_live(&self) -> (result: Result<(), UpstreamCallbackError>)
        ensures
            result == (if self.live() {
                Ok::<(), UpstreamCallbackError>(())
            } else {
                Err::<(), UpstreamCallbackError>(
                    UpstreamCallbackError::RequestDestroyedDuringPeerInitialization,
                )
            }),
    {
        if !self.live {
            return Err(UpstreamCallbackError::RequestDestroyedDuringPeerInitialization);
        }
        Ok(())
    }

    /// Returns the live request's connection logger, by its address.
    pub fn log(&self, native: &NativeState) -> (result: Result<
        Option<usize>,
        UpstreamCallbackError,
    >)
        requires
            self.live() ==> native.requests@.contains_key(self.raw()),
        ensures
            result == (if !self.live() {
                Err(UpstreamCallbackError::RequestDestroyedDuringPeerInitialization)
            } else {
                match native.log_of(self.raw()) {
                    Ok(log) => Ok(log),
                    Err(error) => Err(UpstreamCallbackError::Request(error)),
                }
            }),
    {
        match self.ensure_live() {
            Ok(()) => {},
            Err(error) => return Err(error),
        }
        match self.request.log(native) {
            Ok(log) => Ok(log),
            Err(error) => Err(UpstreamCallbackError::from(error)),
        }
    }

    /// The live request's upstream, by its address.
    fn upstream(&self, native: &NativeState) -> (result: Result<usize, UpstreamCallbackError>)
        requires
            self.live() ==> native.requests@.contains_key(self.raw()),
        ensures
            result == (if !self.live() {
                Err(UpstreamCallbackError::RequestDestroyedDuringPeerInitialization)
            } else {
                native.upstream_of(self.raw())
            }),
    {
        match self.ensure_live() {
            Ok(()) => {},
            Err(error) => return Err(error),
        }
        let upstream = native.request(self.request.raw).upstream;
        if upstream == 0 {
            return Err(UpstreamCallbackError::MissingRequestUpstream);
        }
        if !is_aligned(upstream) {
            return Err(UpstreamCallbackError::MisalignedRequestUpstream);
        }
        Ok(upstream)
    }
}

/// Result of initializing a request's typed upstream peer callbacks.
#[derive(Debug)]
pub enum UpstreamPeerInit<T> {
    /// Install the typed peer data and callback adapters around the original peer callbacks.
    Install(T),
    /// Return a non-success status without installing typed peer data or callbacks.
    Unavailable,
}

impl UpstreamServerConf {
    /// The peer initializer that was installed before that of the handler.
    pub fn original_peer(&self, native: &NativeState, handler: UpstreamHandler) -> (result: Result<
        OriginalPeerInit,
        UpstreamCallbackError,
    >)
        requires
            native.slot_ready(*self, handler.module),
        ensures
            match native.saved_peer(*self, handler) {
                Ok(saved) => result matches Ok(original) && original.saved() == saved,
                Err(error) => result matches Err(e) && e == error,
            },
    {
        match self.callback_slot(native, handler.module) {
            Err(error) => Err(error),
            Ok(address) => native.callback_slot(address).original_peer(handler, self.address),
        }
    }

    /// Installs this handler's request peer initializer for the current upstream configuration.
    ///
    /// A slot that is in use is left alone, as is the native callback.
    pub fn install_peer_initializer(
        &mut self,
        native: &mut NativeState,
        handler: UpstreamHandler,
    ) -> (result: Result<(), UpstreamCallbackError>)
        requires
            old(native).slot_ready(*old(self), handler.module),
        ensures
            *final(native) == (NativeState {
                callback_slots: final(native).callback_slots,
                ..*old(native)
            }),
            match old(native).slot_of(*old(self), handler.module) {
                Err(error) => {
                    &&& result == Err::<(), UpstreamCallbackError>(error)
                    &&& *final(self) == *old(self)
                    &&& *final(native) == *old(native)
                },
                Ok(address) => if old(native).callback_slots@[address].peer is Some {
                    &&& result == Err::<(), UpstreamCallbackError>(
                        UpstreamCallbackError::DuplicatePeerInitializer,
                    )
                    &&& *final(self) == *old(self)
                    &&& *final(native) == *old(native)
                } else {
                    &&& result == Ok::<(), UpstreamCallbackError>(())
                    &&& *final(self) == (UpstreamServerConf {
                        init: Some(handler.init_peer),
                        ..*old(self)
                    })
                    &&& final(native).callback_slots@ == old(native).callback_slots@.insert(
                        address,
                        (UpstreamCallbackSlot {
                            peer: Some(old(self).address),
                            peer_handler: Some(handler.id),
                            original_peer: old(self).init,
                            ..old(native).callback_slots@[address]
                        }),
                    )
                },
            },
    {
        let address = match self.callback_slot(native, handler.module) {
            Ok(address) => address,
            Err(error) => return Err(error),
        };
        let mut slot = native.callback_slot(address);
        match slot.install_peer(handler, self.address, self.init) {
            Ok(()) => {},
            Err(error) => return Err(error),
        }
        native.put_callback_slot(address, slot);
        self.init = Some(handler.init_peer);
        Ok(())
    }
}

/// A pool cleanup that marks a request as destroyed while its peer is initialized.
#[derive(Debug)]
pub struct PeerInitLiveness {
    /// The cleanup entry, by its address.
    pub cleanup: usize,
    /// Whether the entry still has its handler.
    pub armed: bool,
}

impl PeerInitLiveness {
    /// Registers the cleanup with the pool at `pool`.
    pub fn register(native: &mut NativeState, pool: usize) -> (result: Result<
        Self,
        UpstreamCallbackError,
    >)
        requires
            old(native).pools@.contains_key(pool),
        ensures
            *final(native) == (NativeState { pools: final(native).pools, ..*old(native) }),
            final(native).drew(*old(native), pool, 1),
            if old(native).pools@[pool].blocks@.len() == 0 {
                result matches Err(UpstreamCallbackError::Allocation)
            } else {
                result matches Ok(liveness) && liveness.armed && liveness.cleanup == old(
                    native,
                ).pools@[pool].blocks@.last()
            },
    {
        let mut value = native.take_pool(pool);
        let ghost blocks = value.blocks@;
        let cleanup = value.allocate();
        native.put_pool(pool, value);
        proof {
            NativePool::lemma_spend(blocks, 1, 0);
        }
        assert(native.pools@ =~= old(native).pools@.insert(pool, native.pools@[pool]));
        match cleanup {
            Some(cleanup) => Ok(PeerInitLiveness { cleanup, armed: true }),
            None => Err(UpstreamCallbackError::Allocation),
        }
    }

    /// Disables the cleanup before the request leaves the initialization, unless the pool and with
    /// it the entry are gone.
    pub fn disarm(&mut self, live: bool)
        ensures
            *final(self) == (PeerInitLiveness { armed: old(self).armed && !live, ..*old(self) }),
    {
        if live {
            self.armed = false;
        }
    }
}

/// A request peer initialization whose handler is to run.
#[derive(Debug)]
pub struct PeerInitBegun {
    /// The request that the handler gets.
    pub request: UpstreamPeerInitRequest,
    /// The saved peer initializer that the handler gets.
    pub original: OriginalPeerInit,
    pub progress: PeerInitProgress,
}

/// What a peer initialization remembers while its handler runs.
#[derive(Debug)]
pub struct PeerInitProgress {
    /// The request's upstream when the initialization began, by its address.
    pub upstream: usize,
    /// The request pool, by its address.
    pub pool: usize,
    pub liveness: PeerInitLiveness,
}

/// How a request peer initialization ended.
#[derive(Debug)]
pub struct PeerInitOutcome<T> {
    /// The status that nginx gets.
    pub status: isize,
    /// The failure to log, when there is one and the request has a logger.
    pub record: Option<UpstreamLogRecord>,
    /// The typed data that was installed, with the pool storage that it goes to.
    pub data: Option<(usize, HttpUpstreamPeerData<T>)>,
}

impl NativeState {
    /// Whether the pool of a request, when it has one, can be read.
    pub open spec fn peer_pool_ready(self, raw: usize) -> bool {
        self.pool_of(raw) matches Ok(pool) ==> self.pools@.contains_key(pool)
    }

    /// Why the initialization of a request's peer fails before its handler runs, if it does, once
    /// the pool of the request was resolved.
    pub open spec fn peer_init_refused(
        self,
        raw: usize,
        pool: usize,
        upstream: Pointer<UpstreamServerConf>,
        handler: UpstreamHandler,
    ) -> Option<UpstreamCallbackError> {
        if self.pools@[pool].blocks@.len() == 0 {
            Some(UpstreamCallbackError::Allocation)
        } else {
            match self.upstream_of(raw) {
                Err(error) => Some(error),
                Ok(_) => match UpstreamServerConf::checked(upstream) {
                    Err(error) => Some(error),
                    Ok(server) => match self.saved_peer(server, handler) {
                        Err(error) => Some(error),
                        Ok(_) => None,
                    },
                },
            }
        }
    }
}

/// Begins the initialization of a request's peer, unless it fails with an error for nginx and the
/// record that comes out.
pub fn begin_init_peer(
    native: &mut NativeState,
    request: usize,
    upstream: &Pointer<UpstreamServerConf>,
    handler: UpstreamHandler,
) -> (result: Result<PeerInitBegun, Option<UpstreamLogRecord>>)
    requires
        old(native).resolves(request),
        old(native).checked_request(request) is Ok ==> old(native).peer_pool_ready(request),
        *upstream matches Pointer::To(server) ==> old(native).slot_ready(server, handler.module),
    ensures
        *final(native) == (NativeState { pools: final(native).pools, ..*old(native) }),
        match old(native).checked_request(request) {
            Err(_) => {
                &&& result matches Err(None)
                &&& *final(native) == *old(native)
            },
            Ok(raw) => match old(native).pool_of(raw) {
                Err(error) => {
                    &&& result matches Err(record)
                    &&& record == old(native).peer_init_record(
                        raw,
                        UpstreamCallbackError::Request(error),
                    )
                    &&& *final(native) == *old(native)
                },
                Ok(pool) => {
                    &&& final(native).drew(*old(native), pool, 1)
                    &&& match old(native).peer_init_refused(raw, pool, *upstream, handler) {
                        Some(error) => {
                            &&& result matches Err(record)
                            &&& record == old(native).peer_init_record(raw, error)
                        },
                        None => {
                            &&& result matches Ok(begun)
                            &&& begun.request.raw() == raw
                            &&& begun.request.live()
                            &&& Ok::<Option<usize>, UpstreamCallbackError>(begun.original.saved())
                                == old(native).saved_peer(upstream->To_0, handler)
                            &&& begun.progress.pool == pool
                            &&& begun.progress.liveness.armed
                            &&& Ok::<usize, UpstreamCallbackError>(begun.progress.upstream) == old(
                                native,
                            ).upstream_of(raw)
                        },
                    }
                },
            },
        },
{
    let request = match RequestRefMut::from_raw(native, request) {
        Ok(request) => request,
        Err(_) => return Err(None),
    };
    let pool = match request.pool(native) {
        Ok(pool) => pool,
        Err(error) => {
            let error = UpstreamCallbackError::from(error);
            return Err(log_request_failure(&request, native, error));
        },
    };
    let liveness = match PeerInitLiveness::register(native, pool) {
        Ok(liveness) => liveness,
        Err(error) => return Err(log_request_failure(&request, native, error)),
    };
    let request = UpstreamPeerInitRequest { request, live: true };
    let request_upstream = match request.upstream(native) {
        Ok(request_upstream) => request_upstream,
        Err(error) => return Err(log_request_failure(&request.request, native, error)),
    };
    let server = match upstream {
        Pointer::Null => {
            return Err(
                log_request_failure(&request.request, native, UpstreamCallbackError::NullUpstream),
            );
        },
        Pointer::Misaligned => {
            return Err(
                log_request_failure(
                    &request.request,
                    native,
                    UpstreamCallbackError::MisalignedUpstream,
                ),
            );
        },
        Pointer::To(server) => server,
    };
    let original = match server.original_peer(native, handler) {
        Ok(original) => original,
        Err(error) => return Err(log_request_failure(&request.request, native, error)),
    };
    Ok(
        PeerInitBegun {
            request,
            original,
            progress: PeerInitProgress { upstream: request_upstream, pool, liveness },
        },
    )
}

impl NativeState {
    /// Whether a handler's peer data comes to be installed, as far as the pool has storage.
    /// `upstream` is the upstream that the request had before.
    pub open spec fn peer_init_installs<T>(
        self,
        request: UpstreamPeerInitRequest,
        upstream: usize,
        pool: usize,
        initialized: Result<UpstreamPeerInit<T>, UpstreamCallbackError>,
    ) -> bool {
        &&& initialized matches Ok(UpstreamPeerInit::Install(_))
        &&& request.live()
        &&& self.upstream_of(request.raw()) == Ok::<usize, UpstreamCallbackError>(upstream)
    }

    /// Why a peer initialization fails whose handler has run, if it does.
    pub open spec fn peer_init_failed<T>(
        self,
        request: UpstreamPeerInitRequest,
        upstream: usize,
        pool: usize,
        initialized: Result<UpstreamPeerInit<T>, UpstreamCallbackError>,
    ) -> Option<UpstreamCallbackError> {
        match initialized {
            Err(error) => Some(error),
            Ok(initialized) => if !request.live() {
                Some(UpstreamCallbackError::RequestDestroyedDuringPeerInitialization)
            } else {
                match self.upstream_of(request.raw()) {
                    Err(error) => Some(error),
                    Ok(current) => if current != upstream {
                        Some(UpstreamCallbackError::ReplacedRequestUpstream)
                    } else if initialized is Install
                        && self.pools@[pool].blocks@.len() < 2 {
                        Some(UpstreamCallbackError::Allocation)
                    } else {
                        None
                    },
                }
            },
        }
    }
}

impl NativeState {
    /// Whether the state holds what ending a peer initialization needs of a request that lives.
    pub open spec fn peer_init_readable(
        self,
        request: UpstreamPeerInitRequest,
        pool: usize,
    ) -> bool {
        request.live() ==> {
            &&& self.peer_request_ready(request.raw())
            &&& self.pools@.contains_key(pool)
        }
    }

    /// What ending a peer initialization, whose handler returned `initialized`, makes of `before`,
    /// and how it ends.
    pub open spec fn peer_init_finished<T>(
        self,
        before: NativeState,
        request: UpstreamPeerInitRequest,
        upstream: usize,
        pool: usize,
        handler: UpstreamHandler,
        initialized: Result<UpstreamPeerInit<T>, UpstreamCallbackError>,
        result: PeerInitOutcome<T>,
    ) -> bool {
        &&& self == (NativeState { pools: self.pools, upstreams: self.upstreams, ..before })
        &&& if before.peer_init_installs(request, upstream, pool, initialized) {
            self.drew(before, pool, 2)
        } else {
            self == before
        }
        &&& match before.peer_init_failed(request, upstream, pool, initialized) {
            Some(error) => {
                &&& result == (PeerInitOutcome::<T> {
                    status: NGX_ERROR,
                    record: if request.live() {
                        before.peer_init_record(request.raw(), error)
                    } else {
                        None
                    },
                    data: None,
                })
                &&& self.upstreams == before.upstreams
            },
            None => match initialized->Ok_0 {
                UpstreamPeerInit::Unavailable => {
                    result == (PeerInitOutcome::<T> { status: NGX_ERROR, record: None, data: None })
                },
                UpstreamPeerInit::Install(value) => {
                    let blocks = before.pools@[pool].blocks@;
                    let peer = before.upstreams@[upstream].peer;
                    let storage = blocks[blocks.len() - 2];
                    &&& result == (PeerInitOutcome::<T> {
                        status: NGX_OK,
                        record: None,
                        data: Some((storage, HttpUpstreamPeerData::installed(handler, peer, value))),
                    })
                    &&& self.upstreams@ == before.upstreams@.insert(
                        upstream,
                        (NativeUpstream { peer: peer.installed(handler, storage) }),
                    )
                },
            },
        }
    }
}

/// Installs a handler's peer data and callbacks at the request's upstream.
fn install_peer<T>(
    native: &mut NativeState,
    upstream: usize,
    pool: usize,
    handler: UpstreamHandler,
    value: T,
) -> (result: Result<(usize, HttpUpstreamPeerData<T>), UpstreamCallbackError>)
    requires
        old(native).pools@.contains_key(pool),
        old(native).upstreams@.contains_key(upstream),
    ensures
        *final(native) == (NativeState {
            pools: final(native).pools,
            upstreams: final(native).upstreams,
            ..*old(native)
        }),
        final(native).drew(*old(native), pool, 2),
        ({
            let blocks = old(native).pools@[pool].blocks@;
            let peer = old(native).upstreams@[upstream].peer;
            if blocks.len() < 2 {
                &&& result matches Err(UpstreamCallbackError::Allocation)
                &&& final(native).upstreams == old(native).upstreams
            } else {
                &&& result matches Ok(data)
                &&& data.0 == blocks[blocks.len() - 2]
                &&& data.1 == HttpUpstreamPeerData::installed(handler, peer, value)
                &&& final(native).upstreams@ == old(native).upstreams@.insert(
                    upstream,
                    (NativeUpstream { peer: peer.installed(handler, blocks[blocks.len() - 2]) }),
                )
            }
        }),
{
    let mut storage_pool = native.take_pool(pool);
    let ghost blocks = storage_pool.blocks@;
    let entry = storage_pool.allocate();
    let storage = if entry.is_some() {
        storage_pool.allocate()
    } else {
        None
    };
    proof {
        NativePool::lemma_spend(blocks, 1, 1);
        NativePool::lemma_spend(blocks, 2, 0);
        if blocks.len() == 0 {
            assert(NativePool::spend(blocks, 1) =~= NativePool::spend(blocks, 2));
        }
    }
    native.put_pool(pool, storage_pool);
    assert(native.pools@ =~= old(native).pools@.insert(pool, native.pools@[pool]));
    let storage = match storage {
        Some(storage) => storage,
        None => return Err(UpstreamCallbackError::Allocation),
    };
    let mut target = native.upstream(upstream);
    let data = HttpUpstreamPeerData::new(handler, &target.peer, value);
    target.peer.install(handler, storage);
    native.put_upstream(upstream, target);
    Ok((storage, data))
}

/// Ends the initialization of a request's peer, given what the handler returned.
///
/// The callbacks are installed only for a request that is still alive and still has the upstream
/// that it had before. A failure is logged only while the request is alive.
pub fn finish_init_peer<T>(
    native: &mut NativeState,
    request: UpstreamPeerInitRequest,
    progress: &mut PeerInitProgress,
    handler: UpstreamHandler,
    initialized: Result<UpstreamPeerInit<T>, UpstreamCallbackError>,
) -> (result: PeerInitOutcome<T>)
    requires
        old(native).peer_init_readable(request, old(progress).pool),
    ensures
        *final(progress) == (PeerInitProgress {
            liveness: PeerInitLiveness {
                armed: old(progress).liveness.armed && !request.live(),
                ..old(progress).liveness
            },
            ..*old(progress)
        }),
        final(native).peer_init_finished(
            *old(native),
            request,
            old(progress).upstream,
            old(progress).pool,
            handler,
            initialized,
            result,
        ),
{
    progress.liveness.disarm(request.live);
    let initialized = match initialized {
        Ok(initialized) => initialized,
        Err(error) => return request.failed(native, error),
    };
    let upstream = match request.upstream(native) {
        Ok(upstream) => upstream,
        Err(error) => return request.failed(native, error),
    };
    if upstream != progress.upstream {
        return request.failed(native, UpstreamCallbackError::ReplacedRequestUpstream);
    }
    match initialized {
        UpstreamPeerInit::Unavailable => PeerInitOutcome {
            status: NGX_ERROR,
            record: None,
            data: None,
        },
        UpstreamPeerInit::Install(value) => {
            let ghost before = *native;
            match install_peer(native, upstream, progress.pool, handler, value) {
                Ok(data) => PeerInitOutcome { status: NGX_OK, record: None, data: Some(data) },
                Err(error) => {
                    assert(native.peer_init_record(request.raw(), error)
                        == before.peer_init_record(request.raw(), error));
                    request.failed(native, error)
                },
            }
        },
    }
}

impl UpstreamPeerInitRequest {
    /// The end of a peer initialization that failed.
    fn failed<T>(&self, native: &NativeState, error: UpstreamCallbackError) -> (result:
        PeerInitOutcome<T>)
        requires
            self.live() ==> native.requests@.contains_key(self.raw()),
        ensures
            result == (PeerInitOutcome::<T> {
                status: NGX_ERROR,
                record: if self.live() {
                    native.peer_init_record(self.raw(), error)
                } else {
                    None
                },
                data: None,
            }),
    {
        let record = if self.live {
            log_request_failure(&self.request, native, error)
        } else {
            None
        };
        PeerInitOutcome { status: NGX_ERROR, record, data: None }
    }
}

/// The adapter that nginx calls to initialize a request's peer.
///
/// A handler runs only for the upstream configuration that it was installed for. It gets the
/// request, the state and the upstream configuration as they are and the saved initializer; nginx
/// gets what its result comes to. The request, and its pool and upstream, have to be there still
/// when the handler says that the request lives.
pub fn raw_init_peer<H: HttpUpstreamPeerHandler>(
    native: &mut NativeState,
    request: usize,
    upstream: &mut Pointer<UpstreamServerConf>,
    handler: UpstreamHandler,
) -> (result: PeerInitOutcome<H::Data>)
    requires
        old(native).resolves(request),
        old(native).checked_request(request) is Ok ==> old(native).peer_pool_ready(request),
        *old(upstream) matches Pointer::To(server) ==> old(native).slot_ready(
            server,
            handler.module,
        ),
    ensures
        result.status == NGX_OK || result.status == NGX_ERROR,
        result.status == NGX_OK ==> result.record is None,
        result.data is Some == (result.status == NGX_OK),
        result.data matches Some(data) ==> {
            let installed = final(native).upstreams@[old(native).upstream_of(request)->Ok_0].peer;
            &&& old(native).upstream_of(request) is Ok
            &&& installed.data == data.0
            &&& installed.get == Some(handler.get_peer)
            &&& installed.free == Some(handler.free_peer)
            &&& data.1.belongs(handler, installed.address)
            &&& data.1.selection.can_begin()
        },
        match old(native).checked_request(request) {
            Err(_) => {
                &&& result == (PeerInitOutcome::<H::Data> {
                    status: NGX_ERROR,
                    record: None,
                    data: None,
                })
                &&& *final(native) == *old(native)
                &&& *final(upstream) == *old(upstream)
            },
            Ok(raw) => match old(native).pool_of(raw) {
                Err(error) => {
                    &&& result == (PeerInitOutcome::<H::Data> {
                        status: NGX_ERROR,
                        record: old(native).peer_init_record(
                            raw,
                            UpstreamCallbackError::Request(error),
                        ),
                        data: None,
                    })
                    &&& *final(native) == *old(native)
                    &&& *final(upstream) == *old(upstream)
                },
                Ok(pool) => match old(native).peer_init_refused(raw, pool, *old(upstream), handler) {
                    Some(error) => {
                        &&& result == (PeerInitOutcome::<H::Data> {
                            status: NGX_ERROR,
                            record: old(native).peer_init_record(raw, error),
                            data: None,
                        })
                        &&& *final(native) == (NativeState {
                            pools: final(native).pools,
                            ..*old(native)
                        })
                        &&& final(native).drew(*old(native), pool, 1)
                        &&& *final(upstream) == *old(upstream)
                    },
                    None => exists|
                        handled: &mut UpstreamPeerInitRequest,
                        state: &mut NativeState,
                        server: &mut UpstreamServerConf,
                        original: OriginalPeerInit,
                        returned: Result<UpstreamPeerInit<H::Data>, UpstreamCallbackError>,
                    |
                        {
                            &&& #[trigger] call_ensures(
                                H::init,
                                (handled, state, server, original),
                                returned,
                            )
                            &&& handled.raw() == raw && handled.live()
                            &&& *state == (NativeState { pools: state.pools, ..*old(native) })
                            &&& state.drew(*old(native), pool, 1)
                            &&& *server == old(upstream)->To_0
                            &&& *final(upstream) == Pointer::To(*final(server))
                            &&& Ok::<Option<usize>, UpstreamCallbackError>(original.saved()) == old(
                                native,
                            ).saved_peer(old(upstream)->To_0, handler)
                            &&& if final(state).peer_init_readable(*final(handled), pool) {
                                final(native).peer_init_finished(
                                    *final(state),
                                    *final(handled),
                                    old(native).upstream_of(raw)->Ok_0,
                                    pool,
                                    handler,
                                    returned,
                                    result,
                                )
                            } else {
                                &&& result == (PeerInitOutcome::<H::Data> {
                                    status: NGX_ERROR,
                                    record: None,
                                    data: None,
                                })
                                &&& *final(native) == *final(state)
                            }
                        },
                },
            },
        },
{
    let begun = match begin_init_peer(native, request, upstream, handler) {
        Ok(begun) => begun,
        Err(record) => return PeerInitOutcome { status: NGX_ERROR, record, data: None },
    };
    let mut request = begun.request;
    let mut progress = begun.progress;
    let server = match upstream {
        Pointer::To(server) => server,
        _ => return PeerInitOutcome { status: NGX_ERROR, record: None, data: None },
    };
    let initialized = H::init(&mut request, native, server, begun.original);
    if !still_there(native, &request, &progress) {
        return PeerInitOutcome { status: NGX_ERROR, record: None, data: None };
    }
    finish_init_peer(native, request, &mut progress, handler, initialized)
}

/// Whether the state holds what a request that lives needs.
fn still_there(
    native: &NativeState,
    request: &UpstreamPeerInitRequest,
    progress: &PeerInitProgress,
) -> (result: bool)
    ensures
        result == native.peer_init_readable(*request, progress.pool),
{
    broadcast use vstd::std_specs::hash::group_hash_axioms;

    if !request.live {
        return true;
    }
    if !native.requests.contains_key(&request.request.raw) || !native.pools.contains_key(
        &progress.pool,
    ) {
        return false;
    }
    match request.upstream(native) {
        Ok(upstream) => native.upstreams.contains_key(&upstream),
        Err(_) => true,
    }
}

} // verus!
