//! Subrequests: what a builder asks for, what the created subrequest has, and who is told.

use vstd::prelude::*;

use crate::native::{NativeRequest, NativeState, NativeString, NginxCall, Pointer};
use crate::request::header_slots::{HeaderSlot, NativeHeadersIn};
use crate::request::view::{RequestError, RequestRefMut};
use crate::subrequest::{
    run_handler, AsyncSubRequestState, PendingSubRequest, SubRequestBuilder, SubRequestCompletion,
    SubRequestCreation, SubRequestError,
};

verus! {

/// Whether a request has a body without buffers and without a temporary file.
pub open spec fn body_empty(request: NativeRequest) -> bool {
    &&& request.request_body is To
    &&& request.request_body->To_0.bufs is Null
    &&& !request.request_body->To_0.temp_file
}

/// Whether input headers have no entry, no slot that leads anywhere and no derived value, in a list
/// with room for `capacity` entries.
pub open spec fn headers_empty(headers: NativeHeadersIn, capacity: usize) -> bool {
    &&& headers.headers.parts@.len() == 1
    &&& headers.headers.parts@[0].nelts == 0
    &&& headers.headers.last == 0
    &&& headers.headers.nalloc == capacity
    &&& headers.slots.chains@.len() == 29
    &&& forall|slot: HeaderSlot| (#[trigger] headers.slots.chain(slot)).len() == 0
    &&& headers.transfer_encoding@.len() == 0
    &&& headers.server.len == 0 && headers.server.data is None
    &&& headers.count == 0
    &&& headers.content_length_n == -1
    &&& headers.keep_alive_n == -1
    &&& !headers.chunked
}

/// Whether two sets of input headers have the same entries, slots and derived values.
pub open spec fn headers_kept(before: NativeHeadersIn, after: NativeHeadersIn) -> bool {
    &&& after.headers.parts == before.headers.parts
    &&& after.headers.size == before.headers.size
    &&& after.headers.nalloc == before.headers.nalloc
    &&& before.headers.parts.len() > 0 ==> after.headers.last + 1 == before.headers.parts.len()
    &&& after.slots == before.slots
    &&& after.transfer_encoding == before.transfer_encoding
    &&& after.server == before.server
    &&& after.count == before.count
    &&& after.content_length_n == before.content_length_n
    &&& after.keep_alive_n == before.keep_alive_n
    &&& after.chunked == before.chunked
}

/// A subrequest that keeps the body has the body that it was created with, whatever its
/// input-header capacity; any other has an empty body, whatever that capacity. Likewise the headers
/// depend on the capacity alone: without one they are those that the subrequest was created with,
/// else there are none.
pub proof fn law_body_and_headers_are_chosen_apart<H>()
    ensures
        forall|
            builder: SubRequestBuilder<H>,
            native: &mut NativeState,
            pending: PendingSubRequest<H>,
            later: &mut NativeState,
            status: isize,
            subrequest: usize,
            created: SubRequestCreation<H>,
        |
            #![trigger call_ensures(SubRequestBuilder::<H>::build, (builder, native), Ok(pending)),
                call_ensures(PendingSubRequest::<H>::finish, (pending, later, status, subrequest), created)]
            call_ensures(SubRequestBuilder::<H>::build, (builder, native), Ok(pending))
                && call_ensures(
                PendingSubRequest::<H>::finish,
                (pending, later, status, subrequest),
                created,
            ) && created.result is Ok && native.pool_of(builder.request) is Ok ==> {
                let before = later.requests@[subrequest];
                let after = final(later).requests@[subrequest];
                &&& builder.keep_body ==> after.request_body == before.request_body
                &&& !builder.keep_body ==> body_empty(after)
                &&& builder.headers_in_capacity == 0 ==> headers_kept(
                    before.headers_in,
                    after.headers_in,
                )
                &&& builder.headers_in_capacity > 0 ==> headers_empty(
                    after.headers_in,
                    builder.headers_in_capacity,
                )
            },
        forall|
            pending: PendingSubRequest<H>,
            native: &mut NativeState,
            status: isize,
            subrequest: usize,
            created: SubRequestCreation<H>,
        |
            #![trigger call_ensures(PendingSubRequest::<H>::finish, (pending, native, status, subrequest), created)]
            call_ensures(
                PendingSubRequest::<H>::finish,
                (pending, native, status, subrequest),
                created,
            ) && created.result is Ok ==> {
                let before = native.requests@[subrequest];
                let after = final(native).requests@[subrequest];
                &&& !pending.empty_body ==> after.request_body == before.request_body
                &&& pending.empty_body ==> body_empty(after)
                &&& pending.headers_in is None ==> headers_kept(before.headers_in, after.headers_in)
                &&& pending.headers_in is Some ==> {
                    &&& after.headers_in.headers.parts == pending.headers_in->0.parts
                    &&& after.headers_in.headers.nalloc == pending.headers_in->0.nalloc
                    &&& after.headers_in.headers.size == pending.headers_in->0.size
                    &&& after.headers_in.count == 0
                    &&& after.headers_in.content_length_n == -1
                    &&& after.headers_in.keep_alive_n == -1
                    &&& !after.headers_in.chunked
                    &&& forall|slot: HeaderSlot|
                        (#[trigger] after.headers_in.slots.chain(slot)).len() == 0
                }
            },
{
}

/// Two subrequests that differ only in what their headers are to be get the same body, and two that
/// differ only in what their body is to be get the same headers.
pub proof fn law_neither_choice_disturbs_the_other<H>()
    ensures
        forall|
            one: PendingSubRequest<H>,
            other: PendingSubRequest<H>,
            first: &mut NativeState,
            second: &mut NativeState,
            status: isize,
            subrequest: usize,
            created_one: SubRequestCreation<H>,
            created_other: SubRequestCreation<H>,
        |
            #![trigger call_ensures(PendingSubRequest::<H>::finish, (one, first, status, subrequest), created_one),
                call_ensures(PendingSubRequest::<H>::finish, (other, second, status, subrequest), created_other)]
            call_ensures(
                PendingSubRequest::<H>::finish,
                (one, first, status, subrequest),
                created_one,
            ) && call_ensures(
                PendingSubRequest::<H>::finish,
                (other, second, status, subrequest),
                created_other,
            ) && *first == *second && created_one.result is Ok && created_other.result is Ok ==> {
                let left = final(first).requests@[subrequest];
                let right = final(second).requests@[subrequest];
                &&& one.empty_body == other.empty_body ==> {
                    ||| left.request_body == right.request_body
                    ||| body_empty(left) && body_empty(right)
                }
                &&& one.headers_in is None && other.headers_in is None ==> left.headers_in.headers
                    == right.headers_in.headers && left.headers_in.slots == right.headers_in.slots
                &&& one.headers_in is Some && one.headers_in == other.headers_in
                    ==> left.headers_in.headers == right.headers_in.headers
                    && left.headers_in.count == right.headers_in.count
            },
{
}

/// A subrequest is created exactly if nginx answered with success and handed out a request: no
/// request but that one changes, and in it nothing but body and headers. A refused subrequest
/// reports nginx's status and drops the handler; an accepted one hands the handler on.
pub proof fn law_creation_follows_the_answer<H>()
    ensures
        forall|
            pending: PendingSubRequest<H>,
            native: &mut NativeState,
            status: isize,
            subrequest: usize,
            created: SubRequestCreation<H>,
        |
            #![trigger call_ensures(PendingSubRequest::<H>::finish, (pending, native, status, subrequest), created)]
            call_ensures(
                PendingSubRequest::<H>::finish,
                (pending, native, status, subrequest),
                created,
            ) ==> {
                let request = native.requests@[subrequest];
                &&& created.result is Ok <==> status == 0 && subrequest != 0 && subrequest % 8 == 0
                    && request.signature == 0x50545448
                &&& created.result matches Ok(view) ==> {
                    let after = final(native).requests@[subrequest];
                    &&& view.raw == subrequest
                    &&& after == (NativeRequest {
                        request_body: after.request_body,
                        headers_in: after.headers_in,
                        ..request
                    })
                    &&& final(native).requests@ == native.requests@.insert(subrequest, after)
                }
                &&& created.result is Err ==> final(native).requests@ == native.requests@
                &&& status != 0 ==> created.result == Err::<RequestRefMut, SubRequestError>(
                    SubRequestError::Create(status),
                ) && created.handler is None
                &&& status == 0 ==> created.handler == pending.handler
                &&& status == 0 && subrequest == 0 ==> created.result == Err::<
                    RequestRefMut,
                    SubRequestError,
                >(SubRequestError::Request(RequestError::NullRequest))
                &&& status == 0 && subrequest % 8 != 0 ==> created.result == Err::<
                    RequestRefMut,
                    SubRequestError,
                >(SubRequestError::Request(RequestError::MisalignedRequest))
                &&& final(native).pools == native.pools
                &&& final(native).upstreams == native.upstreams
                &&& final(native).callback_slots == native.callback_slots
                &&& final(native).core_mains == native.core_mains
            },
        forall|pending: &PendingSubRequest<H>, call: NginxCall|
            #![trigger call_ensures(PendingSubRequest::<H>::call, (pending,), call)]
            call_ensures(PendingSubRequest::<H>::call, (pending,), call) ==> call
                == (NginxCall::HttpSubrequest { request: pending.request, flags: pending.flags }),
{
}

/// Whether `copy` holds exactly `bytes`.
pub open spec fn copies(copy: NativeString, bytes: Seq<u8>) -> bool {
    &&& copy.len == bytes.len()
    &&& copy.len > 0 ==> copy.data is Some && copy.data->0@.len() >= copy.len
        && copy.data->0@.take(copy.len as int) == bytes
}

/// A new builder asks for its URI with no arguments, no flags, an empty body and a list of four
/// headers; each method changes the one thing that it is named after.
pub proof fn law_builders_start_plain<H>(uri: &str)
    ensures
        forall|
            request: &RequestRefMut,
            native: &mut NativeState,
            result: Result<SubRequestBuilder<H>, SubRequestError>,
        |
            #![trigger call_ensures(SubRequestBuilder::<H>::new, (request, native, uri), result)]
            call_ensures(SubRequestBuilder::<H>::new, (request, native, uri), result) ==> {
                let pool = native.requests@[request.raw].pool;
                &&& result is Ok <==> pool != 0 && pool % 8 == 0
                    && native.pools@[pool].blocks@.len() > 0
                &&& result matches Ok(builder) ==> {
                    &&& copies(builder.uri, vstd::utf8::encode_utf8(uri@))
                    &&& builder.request == request.raw
                    &&& builder.args is None
                    &&& builder.flags == 0
                    &&& !builder.keep_body
                    &&& builder.headers_in_capacity == 4
                    &&& builder.handler is None
                }
                &&& result matches Err(error) ==> error == (if pool == 0 || pool % 8 != 0 {
                    SubRequestError::Request(native.pool_of(request.raw)->Err_0)
                } else {
                    SubRequestError::Alloc
                })
                &&& final(native).requests == native.requests
            },
{
}

/// A builder's methods change the one thing that they are named after.
pub proof fn law_builders_change_one_thing<H, HT>(args: &str)
    ensures
        forall|
            builder: SubRequestBuilder<H>,
            native: &mut NativeState,
            result: Result<SubRequestBuilder<H>, SubRequestError>,
        |
            #![trigger call_ensures(SubRequestBuilder::<H>::args, (builder, native, args), result)]
            call_ensures(SubRequestBuilder::<H>::args, (builder, native, args), result) ==> {
                let pool = native.requests@[builder.request].pool;
                &&& result is Ok <==> pool != 0 && pool % 8 == 0
                    && native.pools@[pool].blocks@.len() > 0
                &&& result matches Ok(changed) ==> {
                    &&& changed.args is Some
                    &&& copies(changed.args->0, vstd::utf8::encode_utf8(args@))
                    &&& changed.uri == builder.uri
                    &&& only_differs(builder, changed, builder.flags, builder.keep_body, builder.headers_in_capacity)
                    &&& changed.handler == builder.handler
                }
                &&& final(native).requests == native.requests
            },
        forall|builder: SubRequestBuilder<H>, handler: HT, result: SubRequestBuilder<HT>|
            #![trigger call_ensures(SubRequestBuilder::<H>::handler::<HT>, (builder, handler), result)]
            call_ensures(SubRequestBuilder::<H>::handler::<HT>, (builder, handler), result) ==> {
                &&& result.handler == Some(handler)
                &&& result.uri == builder.uri && result.args == builder.args
                &&& only_differs(builder, result, builder.flags, builder.keep_body, builder.headers_in_capacity)
            },
        forall|builder: SubRequestBuilder<H>, result: SubRequestBuilder<H>|
            #![trigger call_ensures(SubRequestBuilder::<H>::keep_body, (builder,), result)]
            call_ensures(SubRequestBuilder::<H>::keep_body, (builder,), result) ==> unhandled_kept(
                builder,
                result,
            ) && only_differs(builder, result, builder.flags, true, builder.headers_in_capacity),
        forall|builder: SubRequestBuilder<H>, capacity: usize, result: SubRequestBuilder<H>|
            #![trigger call_ensures(SubRequestBuilder::<H>::init_headers_in, (builder, capacity), result)]
            call_ensures(SubRequestBuilder::<H>::init_headers_in, (builder, capacity), result)
                ==> unhandled_kept(builder, result) && only_differs(
                builder,
                result,
                builder.flags,
                builder.keep_body,
                capacity,
            ),
        forall|builder: SubRequestBuilder<H>, result: SubRequestBuilder<H>|
            #![trigger call_ensures(SubRequestBuilder::<H>::in_memory, (builder,), result)]
            call_ensures(SubRequestBuilder::<H>::in_memory, (builder,), result) ==> unhandled_kept(
                builder,
                result,
            ) && flag_set(builder, result, 2),
        forall|builder: SubRequestBuilder<H>, result: SubRequestBuilder<H>|
            #![trigger call_ensures(SubRequestBuilder::<H>::waited, (builder,), result)]
            call_ensures(SubRequestBuilder::<H>::waited, (builder,), result) ==> unhandled_kept(
                builder,
                result,
            ) && flag_set(builder, result, 4),
        forall|builder: SubRequestBuilder<H>, result: SubRequestBuilder<H>|
            #![trigger call_ensures(SubRequestBuilder::<H>::cloned, (builder,), result)]
            call_ensures(SubRequestBuilder::<H>::cloned, (builder,), result) ==> unhandled_kept(
                builder,
                result,
            ) && flag_set(builder, result, 8),
        forall|builder: SubRequestBuilder<H>, result: SubRequestBuilder<H>|
            #![trigger call_ensures(SubRequestBuilder::<H>::background, (builder,), result)]
            call_ensures(SubRequestBuilder::<H>::background, (builder,), result) ==> unhandled_kept(
                builder,
                result,
            ) && flag_set(builder, result, 16),
{
    assert forall|flags: usize|
        (#[trigger] (flags | 2)) & 2 == 2 && (flags | 2) & !2usize == flags & !2usize by {
        assert((flags | 2) & 2 == 2 && (flags | 2) & !2usize == flags & !2usize) by (bit_vector);
    }
    assert forall|flags: usize|
        (#[trigger] (flags | 4)) & 4 == 4 && (flags | 4) & !4usize == flags & !4usize by {
        assert((flags | 4) & 4 == 4 && (flags | 4) & !4usize == flags & !4usize) by (bit_vector);
    }
    assert forall|flags: usize|
        (#[trigger] (flags | 8)) & 8 == 8 && (flags | 8) & !8usize == flags & !8usize by {
        assert((flags | 8) & 8 == 8 && (flags | 8) & !8usize == flags & !8usize) by (bit_vector);
    }
    assert forall|flags: usize|
        (#[trigger] (flags | 16)) & 16 == 16 && (flags | 16) & !16usize == flags & !16usize by {
        assert((flags | 16) & 16 == 16 && (flags | 16) & !16usize == flags & !16usize)
            by (bit_vector);
    }
}

/// Whether `after` asks for the same URI, arguments and handler as `before`.
pub open spec fn unhandled_kept<H>(
    before: SubRequestBuilder<H>,
    after: SubRequestBuilder<H>,
) -> bool {
    after.uri == before.uri && after.args == before.args && after.handler == before.handler
}

/// Whether `after` belongs to the request of `before` and asks for what is given.
pub open spec fn only_differs<H, HT>(
    before: SubRequestBuilder<H>,
    after: SubRequestBuilder<HT>,
    flags: usize,
    keep_body: bool,
    capacity: usize,
) -> bool {
    &&& after.request == before.request
    &&& after.flags == flags
    &&& after.keep_body == keep_body
    &&& after.headers_in_capacity == capacity
}

/// Whether `after` is `before` with the bit `flag` set and no other bit changed.
pub open spec fn flag_set<H>(
    before: SubRequestBuilder<H>,
    after: SubRequestBuilder<H>,
    flag: usize,
) -> bool {
    &&& only_differs(before, after, after.flags, before.keep_body, before.headers_in_capacity)
    &&& after.flags & flag == flag
    &&& after.flags & !flag == before.flags & !flag
}

/// Building takes over what the builder asks for, and fails exactly if the request has no pool or
/// the pool cannot hold it: one block for an empty body, one for a header list, three for a handler.
pub proof fn law_building_takes_what_is_asked_for<H>()
    ensures
        forall|
            builder: SubRequestBuilder<H>,
            native: &mut NativeState,
            result: Result<PendingSubRequest<H>, SubRequestError>,
        |
            #![trigger call_ensures(SubRequestBuilder::<H>::build, (builder, native), result)]
            call_ensures(SubRequestBuilder::<H>::build, (builder, native), result) ==> {
                let pool = native.requests@[builder.request].pool;
                let body: nat = if builder.keep_body {
                    0
                } else {
                    1
                };
                let list: nat = if builder.headers_in_capacity == 0 {
                    0
                } else {
                    1
                };
                let handler: nat = if builder.handler is Some {
                    3
                } else {
                    0
                };
                let free = native.pools@[pool].blocks@.len();
                &&& result is Ok <==> pool != 0 && pool % 8 == 0 && builder.headers_in_capacity * 56
                    <= usize::MAX && free >= body + list + handler
                &&& result matches Ok(pending) ==> {
                    &&& pending.request == builder.request
                    &&& pending.uri == builder.uri
                    &&& pending.args == builder.args
                    &&& pending.flags == builder.flags
                    &&& pending.handler == builder.handler
                    &&& pending.empty_body <==> !builder.keep_body
                    &&& pending.headers_in is Some <==> builder.headers_in_capacity != 0
                    &&& pending.headers_in matches Some(prepared) ==> {
                        &&& prepared.parts@.len() == 1
                        &&& prepared.parts@[0].nelts == 0
                        &&& prepared.nalloc == builder.headers_in_capacity
                    }
                    &&& final(native).pools@[pool].blocks@.len() == free - (body + list + handler)
                }
                &&& result matches Err(error) ==> error == SubRequestError::Alloc || pool == 0
                    || pool % 8 != 0
                &&& final(native).requests == native.requests
            },
{
}

/// A completion handler runs at most once, for the first completion; afterwards nginx gets its own
/// status back. Storage that cannot be read answers with an error.
pub proof fn law_completions_run_the_handler_once<H>()
    ensures
        forall|data: &mut Pointer<Option<H>>, status: isize, result: SubRequestCompletion<H>|
            #![trigger call_ensures(run_handler::<H>, (data, status), result)]
            call_ensures(run_handler::<H>, (data, status), result) ==> {
                &&& result is Run <==> *data is To && data->To_0 is Some
                &&& result matches SubRequestCompletion::Run(handler) ==> data->To_0 == Some(handler)
                &&& *data is To ==> *final(data) is To && final(data)->To_0 is None
                &&& *data !is To ==> *final(data) == *data
                &&& result matches SubRequestCompletion::Answer(answer) ==> answer == (
                if *data is To {
                    status as int
                } else {
                    -1
                })
            },
{
}

/// The first completion of an awaited subrequest is the one that is delivered, once, and it wakes
/// the last one that waited. Giving up the delivery drops it.
pub proof fn law_awaited_completions_are_delivered_once<T, W>()
    ensures
        forall|state: AsyncSubRequestState<T, W>|
            #![trigger call_ensures(AsyncSubRequestState::<T, W>::new, (), state)]
            call_ensures(AsyncSubRequestState::<T, W>::new, (), state) ==> state.output is None
                && state.waker is None && !state.consumed && !state.canceled,
        forall|
            state: &mut AsyncSubRequestState<T, W>,
            output: Result<T, SubRequestError>,
            woken: Option<W>,
        |
            #![trigger call_ensures(AsyncSubRequestState::<T, W>::complete, (state, output), woken)]
            call_ensures(AsyncSubRequestState::<T, W>::complete, (state, output), woken)
                ==> delivered(*state, *final(state), output, woken),
        forall|state: &mut AsyncSubRequestState<T, W>, output: T, woken: Option<W>|
            #![trigger call_ensures(AsyncSubRequestState::<T, W>::finish, (state, output), woken)]
            call_ensures(AsyncSubRequestState::<T, W>::finish, (state, output), woken) ==> delivered(
                *state,
                *final(state),
                Ok(output),
                woken,
            ),
        forall|state: &mut AsyncSubRequestState<T, W>, woken: Option<W>|
            #![trigger call_ensures(AsyncSubRequestState::<T, W>::abandon, (state,), woken)]
            call_ensures(AsyncSubRequestState::<T, W>::abandon, (state,), woken) ==> delivered(
                *state,
                *final(state),
                Err(SubRequestError::Canceled),
                woken,
            ),
        forall|
            state: &mut AsyncSubRequestState<T, W>,
            waker: W,
            result: Option<Result<T, SubRequestError>>,
        |
            #![trigger call_ensures(AsyncSubRequestState::<T, W>::poll, (state, waker), result)]
            call_ensures(AsyncSubRequestState::<T, W>::poll, (state, waker), result) ==> {
                &&& result == state.output
                &&& final(state).output is None
                &&& final(state).canceled == state.canceled
                &&& final(state).consumed <==> state.consumed || result is Some
                &&& final(state).waker == (if result is Some {
                    state.waker
                } else {
                    Some(waker)
                })
            },
        forall|state: &mut AsyncSubRequestState<T, W>, result: ()|
            #![trigger call_ensures(AsyncSubRequestState::<T, W>::cancel, (state,), result)]
            call_ensures(AsyncSubRequestState::<T, W>::cancel, (state,), result) ==> {
                &&& state.consumed ==> *final(state) == *state
                &&& !state.consumed ==> final(state).output is None && final(state).waker is None
                    && final(state).canceled && !final(state).consumed
            },
        forall|state: &AsyncSubRequestState<T, W>, accepts: bool|
            #![trigger call_ensures(AsyncSubRequestState::<T, W>::accepts_completion, (state,), accepts)]
            call_ensures(AsyncSubRequestState::<T, W>::accepts_completion, (state,), accepts) ==> (
            accepts <==> !state.canceled),
{
}

/// Whether `output` was delivered and `woken` is to be woken, or was dropped because there was a
/// completion before it or nobody waits any more.
pub open spec fn delivered<T, W>(
    before: AsyncSubRequestState<T, W>,
    after: AsyncSubRequestState<T, W>,
    output: Result<T, SubRequestError>,
    woken: Option<W>,
) -> bool {
    if before.canceled || before.consumed || before.output is Some {
        after == before && woken is None
    } else {
        &&& after.output == Some(output)
        &&& woken == before.waker
        &&& after.waker is None
        &&& !after.canceled && !after.consumed
    }
}

} // verus!
