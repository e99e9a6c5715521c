//! Reads of the client body: how they begin, what nginx answers, and whose callback runs.

use vstd::prelude::*;

use crate::native::{NativeState, NginxCall};
use crate::request::client_body::{
    raw_client_body_handler, ClientBodyCallback, ClientBodyCallbackBegin, ClientBodyDispatch,
    ClientBodyReadBegin, ClientBodyReadStart, ClientBodyReadStatus, HttpClientBodyHandler,
    PendingClientBodyRead,
};
use crate::request::context::{
    register_client_body_read, ClientBodyReadOperation, ContextCancellationHold, ContextSelection,
    RequestContextError, RequestContextRegistry,
};
use crate::request::view::{RequestRef, RequestRefMut};

verus! {

/// A status of nginx is told apart by what it means, and none is lost: success, not yet, done, a
/// response from 300 to 599, anything else an error. It reads back as it was.
pub proof fn law_read_statuses_are_told_apart(status: isize)
    ensures
        forall|result: ClientBodyReadStatus| #[trigger]
            call_ensures(ClientBodyReadStatus::from_raw, (status,), result) ==> classified_as(
                status,
                result,
            ),
        forall|shown: ClientBodyReadStatus, raw: isize| #[trigger]
            call_ensures(ClientBodyReadStatus::raw, (&shown,), raw) && classified_as(status, shown)
                ==> raw == status,
{
}

/// Whether a status of nginx is shown as what it means.
pub open spec fn classified_as(status: isize, shown: ClientBodyReadStatus) -> bool {
    &&& shown is Completed <==> status == 0
    &&& shown is Again <==> status == -2
    &&& shown is Done <==> status == -4
    &&& shown is Special <==> 300 <= status <= 599
    &&& shown matches ClientBodyReadStatus::Special(special) ==> special.0 == status
    &&& shown matches ClientBodyReadStatus::Error(error) ==> error.0 == status
}

/// A read that nginx started is released with one finalization that keeps the request, exactly if
/// nginx counted a reference for it.
pub proof fn law_started_reads_are_released_once(start: ClientBodyReadStart)
    ensures
        forall|call: Option<NginxCall>| #[trigger]
            call_ensures(ClientBodyReadStart::release, (start,), call) ==> {
                &&& call is Some <==> start.release_required
                &&& call matches Some(asked) ==> asked == (NginxCall::FinalizeRequest {
                    request: start.request.raw,
                    status: (-4) as isize,
                })
            },
        forall|status: &ClientBodyReadStatus| #[trigger]
            call_ensures(ClientBodyReadStart::status, (&start,), status) ==> *status
                == start.status,
        forall|request: &RequestRefMut| #[trigger]
            call_ensures(ClientBodyReadStart::request, (&start,), request) ==> *request
                == start.request,
{
}

/// What nginx answers a read with is the status of the read. A response or an error takes the
/// pending read back, any other answer leaves it; nginx counted a reference unless it answered with
/// a response.
pub proof fn law_answered_reads_keep_the_status(pending: PendingClientBodyRead, status: isize)
    ensures
        forall|call: NginxCall| #[trigger]
            call_ensures(PendingClientBodyRead::call, (&pending,), call) ==> call
                == (NginxCall::ReadClientRequestBody {
                request: pending.request,
                callback: pending.callback,
            }),
        forall|native: &mut NativeState, start: ClientBodyReadStart| #[trigger]
            call_ensures(PendingClientBodyRead::finish, (pending, native, status), start) ==> {
                let pool = native.requests@[pending.request].pool;
                let registry = native.pools@[pool].registry->0;
                let read = registry.client_body_read->0;
                let failed = !(status == 0 || status == -2 || status == -4);
                let own = pool != 0 && native.pools@[pool].registry is Some
                    && registry.client_body_read is Some && read.id == pending.id && read.callback
                    == pending.callback;
                &&& start.request.raw == pending.request
                &&& classified_as(status, start.status)
                &&& start.release_required <==> !(300 <= status <= 599)
                &&& failed && own ==> final(native).pools@[pool].registry == Some(
                    RequestContextRegistry { client_body_read: None, ..registry },
                )
                &&& !failed || !own ==> final(native).pools@ == native.pools@
                &&& final(native).requests == native.requests
            },
{
}

/// Whether a pending read of a callback was registered in a request's registry, in the generation
/// as it is, with a number that no read had before it.
pub open spec fn read_pending(
    before: NativeState,
    after: NativeState,
    raw: usize,
    callback: usize,
    id: u64,
) -> bool {
    let pool = before.requests@[raw].pool;
    let registry = after.pools@[pool].registry->0;
    &&& pool != 0 && pool % 8 == 0
    &&& after.pools@[pool].registry is Some
    &&& registry.client_body_read == Some(
        ClientBodyReadOperation { id, generation: registry.generation, callback },
    )
    &&& before.pools@[pool].registry matches Some(earlier) ==> {
        &&& earlier.client_body_read is None
        &&& id == earlier.next_client_body_read_id
        &&& registry.generation == earlier.generation
        &&& registry.registrations == earlier.registrations
        &&& registry.next_client_body_read_id == (if id == 0xffff_ffff_ffff_ffff {
            0
        } else {
            id + 1
        })
    }
    &&& before.pools@[pool].registry is None ==> id == 0 && registry.generation == 0
        && registry.registrations@.len() == 0
}

/// A read is registered exactly if none is pending: a second one finds the first, and a request
/// without what a registry needs is refused.
pub proof fn law_one_read_is_pending_at_a_time(raw: usize, callback: usize)
    ensures
        forall|native: &mut NativeState, result: Result<Option<u64>, RequestContextError>|
         #[trigger]
            call_ensures(register_client_body_read, (native, raw, callback), result) ==> {
                let pool = native.requests@[raw].pool;
                let usable = pool != 0 && pool % 8 == 0 && native.main_of(raw) is Ok;
                let registered = native.pools@[pool].registry is Some;
                let room = registered || native.next_owner < usize::MAX
                    && native.pools@[pool].blocks@.len() >= 2;
                let busy = registered && native.pools@[pool].registry->0.client_body_read is Some;
                &&& result is Ok <==> usable && room
                &&& result matches Ok(Some(id)) ==> !busy && read_pending(
                    *native,
                    *final(native),
                    raw,
                    callback,
                    id,
                )
                &&& result matches Ok(None) ==> busy && final(native).pools@ == native.pools@
                &&& usable && room && !busy ==> result->Ok_0 is Some
                &&& result is Err && usable ==> result->Err_0 == RequestContextError::Allocation
                &&& !usable ==> result->Err_0 is Request && final(native).pools@ == native.pools@
            },
{
}

/// Reading the client body asks nginx for it with the callback exactly if no read is pending; a
/// pending one is told to wait, and a refusal is an error. Neither is to be released.
pub proof fn law_reads_begin_once(callback: usize)
    ensures
        forall|request: &mut RequestRefMut, native: &mut NativeState, result: ClientBodyReadBegin|
         #[trigger]
            call_ensures(RequestRefMut::read_client_body, (request, native, callback), result)
                ==> {
                let pool = native.requests@[request.raw].pool;
                let usable = pool != 0 && pool % 8 == 0 && native.main_of(request.raw) is Ok;
                let registered = native.pools@[pool].registry is Some;
                let room = registered || native.next_owner < usize::MAX
                    && native.pools@[pool].blocks@.len() >= 2;
                let busy = registered && native.pools@[pool].registry->0.client_body_read is Some;
                &&& result is Call <==> usable && room && !busy
                &&& result matches ClientBodyReadBegin::Call(pending) ==> {
                    &&& pending.request == request.raw
                    &&& pending.callback == callback
                    &&& read_pending(*native, *final(native), request.raw, callback, pending.id)
                }
                &&& result matches ClientBodyReadBegin::Started(start) ==> {
                    &&& start.request.raw == request.raw
                    &&& !start.release_required
                    &&& start.status is Again <==> usable && room && busy
                    &&& !(start.status is Again) ==> start.status is Error && start.status->Error_0.0
                        == -1
                    &&& start.status is Again ==> final(native).pools@ == native.pools@
                }
                &&& *final(request) == *request
            },
        forall|request: &mut RequestRefMut, call: NginxCall| #[trigger]
            call_ensures(RequestRefMut::discard_request_body, (request,), call) ==> call
                == (NginxCall::DiscardRequestBody { request: request.raw }) && *final(request)
                == *request,
{
}

/// The callback of a read is ignored for a request that cannot be followed or held; otherwise it
/// first cancels the request's stale contexts, for the callback that nginx ran and under the hold.
pub proof fn law_callbacks_cancel_stale_contexts_first(request: usize, callback: usize)
    ensures
        forall|native: &mut NativeState, result: ClientBodyCallbackBegin| #[trigger]
            call_ensures(raw_client_body_handler, (native, request, callback), result) ==> {
                let valid = request != 0 && request % 8 == 0
                    && native.requests@[request].signature == 0x50545448;
                &&& !valid ==> result is Ignored
                &&& result is Ignored ==> final(native).requests@ == native.requests@
                    && final(native).pools@ == native.pools@
                &&& result matches ClientBodyCallbackBegin::Cancel(begun) ==> {
                    &&& begun.request == request
                    &&& begun.callback == callback
                    &&& begun.cancellation.walk.pool == native.requests@[request].pool
                    &&& begun.cancellation.walk.selection == ContextSelection::Stale
                    &&& begun.hold matches Some(hold) ==> hold.request == request
                    &&& native.retained(request).1 == Ok::<
                        Option<ContextCancellationHold>,
                        crate::request::view::RequestError,
                    >(begun.hold)
                }
                &&& valid && native.retained(request).1 is Ok ==> !(result is Ignored)
            },
{
}

/// Once the stale contexts are cancelled the handler runs exactly if the pending read is that of
/// the callback and of the present generation. A read of an earlier generation fails the request;
/// where the request ended meanwhile nothing runs.
pub proof fn law_only_current_reads_run(callback: ClientBodyCallback)
    ensures
        forall|native: &mut NativeState, dispatch: ClientBodyDispatch| #[trigger]
            call_ensures(ClientBodyCallback::resume, (callback, native), dispatch) ==> {
                let gone = callback.cancellation.hold is Some
                    && native.requests@[callback.cancellation.hold->0.main].count == 1;
                let pool = native.requests@[callback.request].pool;
                let walk = callback.cancellation.walk;
                let registry = native.pools@[pool].registry->0;
                let read = registry.client_body_read->0;
                let own = pool != 0 && native.pools@[pool].registry is Some
                    && registry.client_body_read is Some && read.callback == callback.callback;
                &&& dispatch.hold == callback.hold
                &&& gone ==> !dispatch.run
                &&& !gone && !walk.cancelled ==> {
                    &&& dispatch.run <==> own && read.generation == registry.generation
                    &&& dispatch.call is Some <==> own && read.generation != registry.generation
                    &&& dispatch.call matches Some(call) ==> call == (NginxCall::FinalizeRequest {
                        request: callback.request,
                        status: (-1) as isize,
                    })
                    &&& own ==> final(native).pools@[pool].registry == Some(
                        RequestContextRegistry { client_body_read: None, ..registry },
                    )
                    &&& !own ==> final(native).pools@ == native.pools@
                }
                &&& !gone && walk.cancelled && walk.pool == pool && own && native.pools@.contains_key(
                    pool,
                ) && read.generation == registry.generation ==> !dispatch.run && dispatch.call
                    == Some(
                    NginxCall::FinalizeRequest { request: callback.request, status: (-1) as isize },
                )
                &&& !gone && walk.cancelled && !own && walk.pool == pool && native.pools@.contains_key(
                    pool,
                ) ==> !dispatch.run && dispatch.call is None
            },
{
}

/// A handler runs exactly if its read is current and it says that it is active, on the request and
/// the state as they are; otherwise nothing changes. Ending the callback gives up its hold.
pub proof fn law_handlers_run_for_current_reads<H: HttpClientBodyHandler>(
    dispatch: ClientBodyDispatch,
)
    ensures
        forall|request: &mut RequestRefMut, native: &mut NativeState, ran: bool|
            #![trigger call_ensures(ClientBodyDispatch::run_handler::<H>, (&dispatch, request, native), ran)]
            call_ensures(
                ClientBodyDispatch::run_handler::<H>,
                (&dispatch, request, native),
                ran,
            ) ==> {
                &&& ran ==> dispatch.run
                &&& dispatch.run ==> call_ensures(
                    H::is_active,
                    (RequestRef { raw: request.raw }, &*native),
                    ran,
                )
                &&& !ran ==> *final(native) == *native && *final(request) == *request
                &&& ran ==> exists|handled: &mut RequestRefMut, state: &mut NativeState|
                    {
                        &&& #[trigger] call_ensures(H::body_read, (handled, state), ())
                        &&& *handled == *request && *final(handled) == *final(request)
                        &&& *state == *native && *final(state) == *final(native)
                    }
            },
        forall|native: &mut NativeState, call: Option<NginxCall>| #[trigger]
            call_ensures(ClientBodyDispatch::end, (dispatch, native), call) ==> {
                &&& dispatch.hold is None ==> call is None && final(native).requests@
                    == native.requests@
                &&& dispatch.hold matches Some(hold) ==> {
                    let count = native.requests@[hold.main].count;
                    let live = native.requests@[hold.main].pool != 0;
                    &&& call is Some <==> live && count == 1
                        && !native.requests@[hold.main].terminated
                    &&& call matches Some(asked) ==> asked == (NginxCall::FinalizeRequest {
                        request: hold.request,
                        status: (-4) as isize,
                    })
                    &&& live && count > 1 ==> final(native).requests@[hold.main].count == count - 1
                    &&& !(live && count > 1) ==> final(native).requests@ == native.requests@
                }
                &&& final(native).pools == native.pools
            },
{
    assert forall|request: &mut RequestRefMut, native: &mut NativeState, ran: bool|
        #![trigger call_ensures(ClientBodyDispatch::run_handler::<H>, (&dispatch, request, native), ran)]
        call_ensures(ClientBodyDispatch::run_handler::<H>, (&dispatch, request, native), ran)
            && ran implies exists|handled: &mut RequestRefMut, state: &mut NativeState|
        {
            &&& #[trigger] call_ensures(H::body_read, (handled, state), ())
            &&& *handled == *request && *final(handled) == *final(request)
            &&& *state == *native && *final(state) == *final(native)
        } by {}
}

} // verus!
