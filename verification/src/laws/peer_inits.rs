//! Initialization of a request's upstream peer: what begins, what is installed, what is refused.

use vstd::prelude::*;

use crate::laws::peers::installed_by;
use crate::laws::upstreams::slot_found;
use crate::native::{NativeState, Pointer};
use crate::upstream::callback::{
    HttpUpstreamPeerHandler, UpstreamAction, UpstreamCallbackError, UpstreamHandler,
    UpstreamLogRecord,
};
use crate::upstream::init::UpstreamServerConf;
use crate::upstream::peer_init::{
    begin_init_peer, finish_init_peer, raw_init_peer, OriginalPeerInit, PeerInitBegun,
    PeerInitLiveness, PeerInitOutcome, PeerInitProgress, PendingPeerInit, UpstreamPeerInit,
    UpstreamPeerInitRequest, UpstreamPeerInitStatus,
};

verus! {

/// The saved peer initializer can be called exactly if there was one.
pub proof fn law_saved_peer_initializers_are_called(saved: OriginalPeerInit)
    ensures
        forall|result: Result<PendingPeerInit, UpstreamCallbackError>| #[trigger]
            call_ensures(OriginalPeerInit::call, (saved,), result) ==> {
                &&& result is Ok <==> saved.saved() is Some
                &&& result matches Ok(pending) ==> Some(pending.callback) == saved.saved()
                &&& result matches Err(error) ==> error
                    == UpstreamCallbackError::MissingOriginalInitPeer
            },
{
}

/// Whether the upstream of a request can be followed.
pub open spec fn upstream_there(native: NativeState, raw: usize) -> bool {
    native.requests@[raw].upstream != 0 && native.requests@[raw].upstream % 8 == 0
}

/// A saved initializer initialized a peer exactly if it succeeded and left a getter behind, while
/// the request lives; any other status is an unavailable peer.
pub proof fn law_saved_peer_initializers_leave_a_getter(
    pending: PendingPeerInit,
    request: UpstreamPeerInitRequest,
    native: NativeState,
    status: isize,
)
    ensures
        forall|result: Result<UpstreamPeerInitStatus, UpstreamCallbackError>| #[trigger]
            call_ensures(PendingPeerInit::finish, (pending, &request, &native, status), result)
                ==> {
                let upstream = native.requests@[request.raw()].upstream;
                let peer = native.upstreams@[upstream].peer;
                &&& result == Ok::<UpstreamPeerInitStatus, UpstreamCallbackError>(
                    UpstreamPeerInitStatus::Initialized,
                ) <==> request.live() && status == 0 && upstream_there(native, request.raw())
                    && peer.get is Some
                &&& result == Ok::<UpstreamPeerInitStatus, UpstreamCallbackError>(
                    UpstreamPeerInitStatus::Unavailable,
                ) <==> request.live() && status != 0
                &&& !request.live() ==> result is Err && result->Err_0
                    == UpstreamCallbackError::RequestDestroyedDuringPeerInitialization
                &&& request.live() && status == 0 && upstream_there(native, request.raw())
                    && peer.get is None ==> result is Err && result->Err_0
                    == UpstreamCallbackError::MissingPeerGetter
                &&& request.live() && status == 0 && upstream == 0 ==> result is Err
                    && result->Err_0 == UpstreamCallbackError::MissingRequestUpstream
                &&& request.live() && status == 0 && upstream % 8 != 0 ==> result is Err
                    && result->Err_0 == UpstreamCallbackError::MisalignedRequestUpstream
            },
{
}

/// A destroyed request stays the same request but is alive no more, and its log can be had no more.
pub proof fn law_destroyed_requests_are_dead(native: NativeState, view: UpstreamPeerInitRequest)
    ensures
        forall|request: &mut UpstreamPeerInitRequest, result: ()| #[trigger]
            call_ensures(UpstreamPeerInitRequest::mark_destroyed, (request,), result) ==> !final(
                request).live() && final(request).raw() == request.raw(),
        forall|result: Result<Option<usize>, UpstreamCallbackError>| #[trigger]
            call_ensures(UpstreamPeerInitRequest::log, (&view, &native), result) ==> {
                &&& !view.live() ==> result is Err && result->Err_0
                    == UpstreamCallbackError::RequestDestroyedDuringPeerInitialization
                &&& view.live() ==> (result is Ok <==> native.log_of(view.raw()) is Ok)
                &&& result matches Ok(log) ==> log == native.log_of(view.raw())->Ok_0
                &&& view.live() && result is Err ==> result->Err_0 is Request
                    && result->Err_0->Request_0 == native.log_of(view.raw())->Err_0
            },
        forall|liveness: &mut PeerInitLiveness, live: bool, result: ()| #[trigger]
            call_ensures(PeerInitLiveness::disarm, (liveness, live), result) ==> {
                &&& final(liveness).cleanup == liveness.cleanup
                &&& live ==> !final(liveness).armed
                &&& !live ==> final(liveness).armed == liveness.armed
            },
        forall|
            state: &mut NativeState,
            pool: usize,
            result: Result<PeerInitLiveness, UpstreamCallbackError>,
        | #[trigger]
            call_ensures(PeerInitLiveness::register, (state, pool), result) ==> {
                &&& result is Ok <==> state.pools@[pool].blocks@.len() > 0
                &&& result matches Ok(liveness) ==> liveness.armed && liveness.cleanup
                    == state.pools@[pool].blocks@.last() && final(state).pools@[pool].blocks@.len()
                    == state.pools@[pool].blocks@.len() - 1
                &&& result matches Err(error) ==> error == UpstreamCallbackError::Allocation
                &&& final(state).requests == state.requests
            },
{
}

/// Whether `record` reports `error` of a peer initialization to the log of a request, when it has
/// one.
pub open spec fn peer_init_reported(
    record: Option<UpstreamLogRecord>,
    native: NativeState,
    raw: usize,
    error: UpstreamCallbackError,
) -> bool {
    let log = native.log_of(raw);
    &&& record is Some <==> log is Ok && log->Ok_0 is Some
    &&& record matches Some(value) ==> value.level == 4 && Some(value.log) == log->Ok_0
        && value.action == UpstreamAction::PeerInitialization && value.error == error
}

/// Whether a handler's peer initializer is installed for an upstream configuration.
pub open spec fn owns_peer_slot(
    native: NativeState,
    server: UpstreamServerConf,
    handler: UpstreamHandler,
) -> bool {
    let address = server.srv_conf->To_0@[handler.module.ctx_index as int];
    &&& slot_found(native, server, handler.module, address)
    &&& native.callback_slots@[address].peer == Some(server.address)
    &&& native.callback_slots@[address].peer_handler == Some(handler.id)
}

/// Whether the peer of a request can begin to be initialized by a handler.
pub open spec fn can_init(
    native: NativeState,
    request: usize,
    upstream: Pointer<UpstreamServerConf>,
    handler: UpstreamHandler,
) -> bool {
    let pool = native.requests@[request].pool;
    &&& request != 0 && request % 8 == 0
    &&& native.requests@[request].signature == 0x50545448
    &&& pool != 0 && pool % 8 == 0 && native.pools@[pool].blocks@.len() > 0
    &&& upstream_there(native, request)
    &&& upstream is To && owns_peer_slot(native, upstream->To_0, handler)
}

/// A peer begins to be initialized exactly if the request, its pool, its upstream and the handler's
/// slot are there; the handler then gets that request, alive, and the initializer that the slot
/// saves. A refusal is reported to the request's log, where the request can be followed.
pub proof fn law_peer_initializations_begin_for_their_owner(
    request: usize,
    upstream: Pointer<UpstreamServerConf>,
    handler: UpstreamHandler,
)
    ensures
        forall|
            native: &mut NativeState,
            result: Result<PeerInitBegun, Option<UpstreamLogRecord>>,
        | #[trigger]
            call_ensures(begin_init_peer, (native, request, &upstream, handler), result) ==> {
                let pool = native.requests@[request].pool;
                let followed = request != 0 && request % 8 == 0
                    && native.requests@[request].signature == 0x50545448;
                let pooled = followed && pool != 0 && pool % 8 == 0;
                let address = upstream->To_0.srv_conf->To_0@[handler.module.ctx_index as int];
                &&& result is Ok <==> can_init(*native, request, upstream, handler)
                &&& result matches Ok(begun) ==> {
                    &&& begun.request.raw() == request
                    &&& begun.request.live()
                    &&& begun.original.saved() == native.callback_slots@[address].original_peer
                    &&& begun.progress.upstream == native.requests@[request].upstream
                    &&& begun.progress.pool == pool
                    &&& begun.progress.liveness.armed
                    &&& final(native).pools@[pool].blocks@.len()
                        == native.pools@[pool].blocks@.len() - 1
                }
                &&& !followed ==> result->Err_0 is None
                &&& pooled && native.pools@[pool].blocks@.len() == 0 ==> peer_init_reported(
                    result->Err_0,
                    *native,
                    request,
                    UpstreamCallbackError::Allocation,
                )
                &&& pooled && native.pools@[pool].blocks@.len() > 0
                    && native.requests@[request].upstream == 0 ==> peer_init_reported(
                    result->Err_0,
                    *native,
                    request,
                    UpstreamCallbackError::MissingRequestUpstream,
                )
                &&& pooled && native.pools@[pool].blocks@.len() > 0 && upstream_there(
                    *native,
                    request,
                ) && upstream is Null ==> peer_init_reported(
                    result->Err_0,
                    *native,
                    request,
                    UpstreamCallbackError::NullUpstream,
                )
                &&& pooled && native.pools@[pool].blocks@.len() > 0 && upstream_there(
                    *native,
                    request,
                ) && upstream is To && slot_found(
                    *native,
                    upstream->To_0,
                    handler.module,
                    address,
                ) && result is Err ==> peer_init_reported(
                    result->Err_0,
                    *native,
                    request,
                    UpstreamCallbackError::ForeignPeerInitializer,
                )
                &&& final(native).requests == native.requests && final(native).upstreams
                    == native.upstreams
            },
{
}

/// Whether ending a peer initialization installs what the handler made.
pub open spec fn installs<T>(
    native: NativeState,
    request: UpstreamPeerInitRequest,
    upstream: usize,
    pool: usize,
    initialized: Result<UpstreamPeerInit<T>, UpstreamCallbackError>,
) -> bool {
    &&& initialized is Ok && initialized->Ok_0 is Install
    &&& request.live()
    &&& upstream_there(native, request.raw())
    &&& native.requests@[request.raw()].upstream == upstream
    &&& native.pools@[pool].blocks@.len() >= 2
}

/// Whether a peer initialization ended as its handler's result and the request say.
pub open spec fn init_ended<T>(
    before: NativeState,
    after: NativeState,
    request: UpstreamPeerInitRequest,
    upstream: usize,
    pool: usize,
    handler: UpstreamHandler,
    initialized: Result<UpstreamPeerInit<T>, UpstreamCallbackError>,
    outcome: PeerInitOutcome<T>,
) -> bool {
    let peer = before.upstreams@[upstream].peer;
    let now = after.upstreams@[upstream].peer;
    let installed = installs(before, request, upstream, pool, initialized);
    &&& outcome.status == 0 <==> installed
    &&& outcome.status == -1 <==> !installed
    &&& outcome.data is Some <==> installed
    &&& installed ==> {
        let data = (outcome.data->0).1;
        let storage = (outcome.data->0).0;
        &&& installed_by(data, handler, peer.address)
        &&& data.value == initialized->Ok_0->Install_0
        &&& data.original.get == peer.get && data.original.free == peer.free
        &&& data.original.notify == peer.notify && data.original.data == peer.data
        &&& data.original.set_session == peer.set_session && data.original.save_session
            == peer.save_session
        &&& data.selection.active_generation is None
        &&& now.data == storage
        &&& now.get == Some(handler.get_peer) && now.free == Some(handler.free_peer)
        &&& now.notify is Some <==> peer.notify is Some
        &&& now.set_session is Some <==> peer.set_session is Some
        &&& now.save_session is Some <==> peer.save_session is Some
        &&& now.address == peer.address && now.name == peer.name && now.tries == peer.tries
        &&& outcome.record is None
        &&& after.upstreams@ == before.upstreams@.insert(upstream, after.upstreams@[upstream])
    }
    &&& !installed ==> after.upstreams == before.upstreams
    &&& initialized is Ok && initialized->Ok_0 is Unavailable && request.live() && upstream_there(
        before,
        request.raw(),
    ) && before.requests@[request.raw()].upstream == upstream ==> outcome.record is None
    &&& initialized matches Err(error) ==> request.live() ==> peer_init_reported(
        outcome.record,
        before,
        request.raw(),
        error,
    )
    &&& !request.live() ==> outcome.record is None
    &&& initialized is Ok && request.live() && upstream_there(before, request.raw())
        && before.requests@[request.raw()].upstream != upstream ==> peer_init_reported(
        outcome.record,
        before,
        request.raw(),
        UpstreamCallbackError::ReplacedRequestUpstream,
    )
    &&& initialized is Ok && initialized->Ok_0 is Install && request.live() && upstream_there(
        before,
        request.raw(),
    ) && before.requests@[request.raw()].upstream == upstream && !installed ==> peer_init_reported(
        outcome.record,
        before,
        request.raw(),
        UpstreamCallbackError::Allocation,
    )
    &&& after.requests == before.requests
}

/// A handler's data and callbacks are installed exactly if it made some, the request lives and still
/// has its upstream, and the pool can hold them; nginx gets a success exactly then. Failures are
/// reported while the request lives, and its cleanup is disarmed exactly then.
pub proof fn law_peer_initializations_end_as_the_handler_says<T>()
    ensures
        forall|
            native: &mut NativeState,
            request: UpstreamPeerInitRequest,
            progress: &mut PeerInitProgress,
            handler: UpstreamHandler,
            initialized: Result<UpstreamPeerInit<T>, UpstreamCallbackError>,
            outcome: PeerInitOutcome<T>,
        |
            #![trigger call_ensures(finish_init_peer::<T>, (native, request, progress, handler, initialized), outcome)]
            call_ensures(
                finish_init_peer::<T>,
                (native, request, progress, handler, initialized),
                outcome,
            ) ==> {
                &&& init_ended(
                    *native,
                    *final(native),
                    request,
                    progress.upstream,
                    progress.pool,
                    handler,
                    initialized,
                    outcome,
                )
                &&& final(progress).upstream == progress.upstream
                &&& final(progress).pool == progress.pool
                &&& final(progress).liveness.cleanup == progress.liveness.cleanup
                &&& request.live() ==> !final(progress).liveness.armed
                &&& !request.live() ==> final(progress).liveness.armed == progress.liveness.armed
            },
{
}

/// The adapter runs the handler exactly if the initialization can begin, and ends as its result
/// says; everything before that is an error that installs nothing.
pub proof fn law_peer_adapters_run_their_own_handler<H: HttpUpstreamPeerHandler>(
    request: usize,
    handler: UpstreamHandler,
)
    ensures
        forall|
            native: &mut NativeState,
            upstream: &mut Pointer<UpstreamServerConf>,
            outcome: PeerInitOutcome<H::Data>,
        |
            #![trigger call_ensures(raw_init_peer::<H>, (native, request, upstream, handler), outcome)]
            call_ensures(raw_init_peer::<H>, (native, request, upstream, handler), outcome) ==> {
                &&& !can_init(*native, request, *upstream, handler) ==> {
                    &&& outcome.status == -1
                    &&& outcome.data is None
                    &&& *final(upstream) == *upstream
                    &&& final(native).requests == native.requests
                    &&& final(native).upstreams == native.upstreams
                }
                &&& outcome.status == 0 || outcome.status == -1
                &&& outcome.data is Some <==> outcome.status == 0
                &&& outcome.status == 0 ==> outcome.record is None
                &&& can_init(*native, request, *upstream, handler) ==> exists|
                    handled: &mut UpstreamPeerInitRequest,
                    state: &mut NativeState,
                    server: &mut UpstreamServerConf,
                    original: OriginalPeerInit,
                    returned: Result<UpstreamPeerInit<H::Data>, UpstreamCallbackError>,
                |
                    {
                        &&& #[trigger] call_ensures(
                            H::init,
                            (handled, state, server, original),
                            returned,
                        )
                        &&& handled.raw() == request && handled.live()
                        &&& state.requests == native.requests && state.upstreams
                            == native.upstreams
                        &&& *server == upstream->To_0
                        &&& *final(upstream) == Pointer::To(*final(server))
                        &&& original.saved()
                            == native.callback_slots@[server.srv_conf->To_0@[handler.module.ctx_index as int]].original_peer
                        &&& final(state).peer_init_readable(
                            *final(handled),
                            native.requests@[request].pool,
                        ) ==> init_ended(
                            *final(state),
                            *final(native),
                            *final(handled),
                            native.requests@[request].upstream,
                            native.requests@[request].pool,
                            handler,
                            returned,
                            outcome,
                        )
                    }
            },
{
    assert forall|
        native: &mut NativeState,
        upstream: &mut Pointer<UpstreamServerConf>,
        outcome: PeerInitOutcome<H::Data>,
    |
        #![trigger call_ensures(raw_init_peer::<H>, (native, request, upstream, handler), outcome)]
        call_ensures(raw_init_peer::<H>, (native, request, upstream, handler), outcome) && can_init(
            *native,
            request,
            *upstream,
            handler,
        ) implies exists|
        handled: &mut UpstreamPeerInitRequest,
        state: &mut NativeState,
        server: &mut UpstreamServerConf,
        original: OriginalPeerInit,
        returned: Result<UpstreamPeerInit<H::Data>, UpstreamCallbackError>,
    |
        {
            &&& #[trigger] call_ensures(H::init, (handled, state, server, original), returned)
            &&& handled.raw() == request && handled.live()
            &&& state.requests == native.requests && state.upstreams == native.upstreams
            &&& *server == upstream->To_0
            &&& *final(upstream) == Pointer::To(*final(server))
            &&& original.saved()
                == native.callback_slots@[server.srv_conf->To_0@[handler.module.ctx_index as int]].original_peer
            &&& final(state).peer_init_readable(
                *final(handled),
                native.requests@[request].pool,
            ) ==> init_ended(
                *final(state),
                *final(native),
                *final(handled),
                native.requests@[request].upstream,
                native.requests@[request].pool,
                handler,
                returned,
                outcome,
            )
        } by {}
}

} // verus!
