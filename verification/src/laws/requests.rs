//! Native values and checked request views.

use vstd::prelude::*;

use crate::buffer::PoolChain;
use crate::native::{
    ConnectionError, HttpConfigError, ModuleDescriptor, NativePool, NativeRequest, NativeState,
    NativeString, NginxCall, Pointer,
};
use crate::request::view::{
    checked_ngx_str, checked_request_ptr, MainRequestRefMut, RequestError, RequestRef,
    RequestRefMut,
};
use crate::status::{HTTPStatus, InvalidHTTPStatusCode};

verus! {

/// A native string reads as the bytes behind its data pointer, as many as its length says. Only one
/// with a length and a null data pointer is refused.
pub proof fn law_strings_read_their_bytes(value: NativeString)
    ensures
        forall|result: Result<&[u8], RequestError>| #[trigger]
            call_ensures(checked_ngx_str, (&value,), result) && value.readable() ==> {
                match result {
                    Ok(bytes) => {
                        &&& bytes@.len() == value.len
                        &&& forall|i: int|
                            0 <= i < value.len ==> bytes@[i] == value.data->Some_0@[i]
                    },
                    Err(error) => {
                        &&& error == RequestError::MissingStringData
                        &&& value.len > 0
                        &&& value.data is None
                    },
                }
            },
{
}

/// A pool hands out its blocks from the last one on, and keeps the others.
pub proof fn law_pools_hand_out_their_last_block()
    ensures
        forall|pool: &mut NativePool, result: Option<usize>| #[trigger]
            call_ensures(NativePool::allocate, (pool,), result) ==> {
                &&& result is Some <==> pool.blocks@.len() > 0
                &&& result matches Some(block) ==> pool.blocks@ == final(pool).blocks@.push(block)
                &&& result is None ==> final(pool).blocks@.len() == 0
            },
{
    assert forall|pool: &mut NativePool, result: Option<usize>| #[trigger]
        call_ensures(NativePool::allocate, (pool,), result) && result is Some implies pool.blocks@
        == final(pool).blocks@.push(result->Some_0) by {
        assert(pool.blocks@ =~= final(pool).blocks@.push(result->Some_0));
    }
}

/// What is left of a pool's blocks is the front part of what there was, shorter by as many as were
/// asked for.
pub proof fn law_spent_blocks_leave_the_front(blocks: Seq<usize>, count: nat)
    ensures
        count <= blocks.len() ==> NativePool::spend(blocks, count).len() + count == blocks.len(),
        count > blocks.len() ==> NativePool::spend(blocks, count).len() == 0,
        forall|i: int|
            0 <= i < blocks.len() - count ==> #[trigger] NativePool::spend(blocks, count)[i]
                == blocks[i],
{
}

/// A draw from one pool touches neither the other pools nor anything but the blocks of this one.
pub proof fn law_draws_touch_one_pool(before: NativeState, after: NativeState, pool: usize, count: nat)
    requires
        after.drew(before, pool, count),
        count <= before.pools@[pool].blocks@.len(),
    ensures
        after.pools@.dom() =~= before.pools@.dom(),
        forall|other: usize|
            other != pool && before.pools@.contains_key(other) ==> #[trigger] after.pools@[other]
                == before.pools@[other],
        after.pools@[pool].registry == before.pools@[pool].registry,
        after.pools@[pool].contexts == before.pools@[pool].contexts,
        after.pools@[pool].files == before.pools@[pool].files,
        after.pools@[pool].blocks@.len() + count == before.pools@[pool].blocks@.len(),
{
    law_spent_blocks_leave_the_front(before.pools@[pool].blocks@, count);
}

/// A state that is unchanged has the same requests, pools, configurations, upstreams and counters.
pub proof fn law_unchanged_is_the_same(before: NativeState, after: NativeState)
    requires
        after.unchanged(before),
    ensures
        after.requests@ == before.requests@,
        after.pools@ == before.pools@,
        after.core_mains == before.core_mains,
        after.upstreams == before.upstreams,
        after.callback_slots == before.callback_slots,
        after.max_module == before.max_module,
        after.http_max_module == before.http_max_module,
        after.core_module == before.core_module,
        after.next_owner == before.next_owner,
{
}

/// Setting a reference count changes that count and nothing else.
pub proof fn law_counts_change_alone(native: NativeState, raw: usize, count: u16, other: usize)
    requires
        native.requests@.contains_key(raw),
    ensures
        native.with_count(raw, count).dom() =~= native.requests@.dom(),
        native.with_count(raw, count)[raw].count == count,
        (NativeRequest {
            count: native.requests@[raw].count,
            ..native.with_count(raw, count)[raw]
        }) == native.requests@[raw],
        other != raw ==> native.with_count(raw, count)[other] == native.requests@[other],
{
}

/// A callback pointer is accepted exactly if it is not null, is a multiple of eight and leads to a
/// value that carries nginx's HTTP signature. It is then the request itself.
pub proof fn law_callback_pointers_are_checked(native: NativeState, request: usize)
    ensures
        forall|result: Result<usize, RequestError>| #[trigger]
            call_ensures(checked_request_ptr, (&native, request), result) ==> {
                let initialized = native.requests@[request].signature == 0x50545448;
                &&& result is Ok <==> request != 0 && request % 8 == 0 && initialized
                &&& result matches Ok(raw) ==> raw == request
                &&& result == Err::<usize, RequestError>(RequestError::NullRequest) <==> request == 0
                &&& result == Err::<usize, RequestError>(RequestError::MisalignedRequest)
                    <==> request % 8 != 0
                &&& result == Err::<usize, RequestError>(RequestError::InvalidRequestSignature)
                    <==> request != 0 && request % 8 == 0 && !initialized
            },
        forall|result: Result<RequestRef, RequestError>| #[trigger]
            call_ensures(RequestRef::from_raw, (&native, request), result) ==> {
                &&& result is Ok <==> native.checked_request(request) is Ok
                &&& result matches Ok(view) ==> view.raw == request
                &&& result matches Err(error) ==> native.checked_request(request) == Err::<
                    usize,
                    RequestError,
                >(error)
            },
        forall|result: Result<RequestRefMut, RequestError>| #[trigger]
            call_ensures(RequestRefMut::from_raw, (&native, request), result) ==> {
                &&& result is Ok <==> native.checked_request(request) is Ok
                &&& result matches Ok(view) ==> view.raw == request
                &&& result matches Err(error) ==> native.checked_request(request) == Err::<
                    usize,
                    RequestError,
                >(error)
            },
        native.checked_request(request) is Ok <==> request != 0 && request % 8 == 0
            && native.requests@[request].signature == 0x50545448,
{
}

/// Whether `path` leads from a request to its main request, parent by parent: each parent is
/// another initialized request of the same main request.
pub open spec fn parent_path(native: NativeState, path: Seq<usize>, main: usize) -> bool {
    &&& path.len() > 1
    &&& path.last() == main
    &&& forall|i: int|
        0 < i < path.len() ==> {
            &&& #[trigger] path[i] == native.requests@[path[i - 1]].parent
            &&& path[i] != path[i - 1]
            &&& path[i] != 0
            &&& path[i] % 8 == 0
            &&& native.requests@[path[i]].signature == 0x50545448
            &&& native.requests@[path[i]].main == main
        }
}

/// A parent path within the bound reaches the main request.
proof fn lemma_path_reaches(native: NativeState, path: Seq<usize>, main: usize, edges: nat)
    requires
        parent_path(native, path, main),
        path.len() <= edges + 1,
    ensures
        native.reaches(path[0], main, edges),
    decreases edges,
{
    assert(path[1] == native.requests@[path[0]].parent);
    if path[1] != main {
        let rest = path.drop_first();
        assert forall|i: int| 0 < i < rest.len() implies {
            &&& #[trigger] rest[i] == native.requests@[rest[i - 1]].parent
            &&& rest[i] != rest[i - 1]
            &&& rest[i] != 0
            &&& rest[i] % 8 == 0
            &&& native.requests@[rest[i]].signature == 0x50545448
            &&& native.requests@[rest[i]].main == main
        } by {
            assert(rest[i] == path[i + 1]);
            assert(rest[i - 1] == path[i]);
        }
        assert(rest.last() == path.last());
        assert(rest.len() > 1) by {
            if rest.len() == 1 {
                assert(rest[0] == rest.last());
            }
        }
        lemma_path_reaches(native, rest, main, (edges - 1) as nat);
    }
}

/// What is reached is reached along a parent path.
proof fn lemma_reached_by_path(native: NativeState, request: usize, main: usize, edges: nat) -> (path:
    Seq<usize>)
    requires
        native.reaches(request, main, edges),
    ensures
        parent_path(native, path, main),
        path[0] == request,
        path.len() <= edges + 1,
    decreases edges,
{
    let parent = native.requests@[request].parent;
    if parent == main {
        let path = seq![request, parent];
        assert(path.last() == main);
        path
    } else {
        let rest = lemma_reached_by_path(native, parent, main, (edges - 1) as nat);
        let path = seq![request] + rest;
        assert forall|i: int| 0 < i < path.len() implies {
            &&& #[trigger] path[i] == native.requests@[path[i - 1]].parent
            &&& path[i] != path[i - 1]
            &&& path[i] != 0
            &&& path[i] % 8 == 0
            &&& native.requests@[path[i]].signature == 0x50545448
            &&& native.requests@[path[i]].main == main
        } by {
            assert(path[i] == rest[i - 1]);
            if i > 1 {
                assert(path[i - 1] == rest[i - 2]);
            }
        }
        assert(path.last() == rest.last());
        path
    }
}

/// A request has a main request exactly if its main pointer leads to an initialized request that
/// is its own main, and it is that request itself or a chain of at most 51 parents leads there.
pub proof fn law_main_is_the_root_of_the_parents(native: NativeState, raw: usize)
    ensures
        ({
            let main = native.requests@[raw].main;
            let root = main != 0 && main % 8 == 0 && native.requests@[main].signature == 0x50545448
                && native.requests@[main].main == main;
            &&& native.main_of(raw) is Ok <==> root && (main == raw || exists|path: Seq<usize>|
                #[trigger] parent_path(native, path, main) && path[0] == raw && path.len() <= 52)
            &&& native.main_of(raw) matches Ok(found) ==> found == main
            &&& native.main_of(raw) == Err::<usize, RequestError>(RequestError::MissingMain)
                <==> main == 0
            &&& native.main_of(raw) == Err::<usize, RequestError>(RequestError::MisalignedMain)
                <==> main % 8 != 0
            &&& native.main_of(raw) == Err::<usize, RequestError>(RequestError::InvalidMainSignature)
                <==> main != 0 && main % 8 == 0 && native.requests@[main].signature != 0x50545448
            &&& native.main_of(raw) matches Err(error) ==> error == RequestError::MissingMain
                || error == RequestError::MisalignedMain || error
                == RequestError::InvalidMainSignature || error == RequestError::ForeignMain
        }),
{
    let main = native.requests@[raw].main;
    if native.main_of(raw) is Ok && main != raw {
        let path = lemma_reached_by_path(native, raw, main, 51);
        assert(parent_path(native, path, main) && path[0] == raw && path.len() <= 52);
    }
    if exists|path: Seq<usize>| #[trigger]
        parent_path(native, path, main) && path[0] == raw && path.len() <= 52 {
        let path = choose|path: Seq<usize>| #[trigger]
            parent_path(native, path, main) && path[0] == raw && path.len() <= 52;
        lemma_path_reaches(native, path, main, 51);
    }
}

/// Every way to the main request leads to the one that the request names.
pub proof fn law_views_of_the_main_request_agree(native: NativeState, view: RequestRef)
    ensures
        forall|result: Result<bool, RequestError>| #[trigger]
            call_ensures(RequestRef::is_main, (&view, &native), result) ==> match result {
                Ok(main) => native.main_of(view.raw) is Ok && main == (
                native.requests@[view.raw].main == view.raw),
                Err(error) => native.main_of(view.raw) == Err::<usize, RequestError>(error),
            },
        forall|result: Result<RequestRef, RequestError>| #[trigger]
            call_ensures(RequestRef::main, (&view, &native), result) ==> match result {
                Ok(main) => native.main_of(view.raw) is Ok && main.raw
                    == native.requests@[view.raw].main,
                Err(error) => native.main_of(view.raw) == Err::<usize, RequestError>(error),
            },
        forall|request: RequestRefMut, result: Result<RequestRefMut, RequestError>| #[trigger]
            call_ensures(RequestRefMut::into_main, (request, &native), result) ==> match result {
                Ok(main) => native.main_of(request.raw) is Ok && main.raw
                    == native.requests@[request.raw].main,
                Err(error) => native.main_of(request.raw) == Err::<usize, RequestError>(error),
            },
        forall|request: &mut RequestRefMut, result: Result<MainRequestRefMut, RequestError>|
            #[trigger]
            call_ensures(RequestRefMut::main_mut, (request, &native), result) ==> match result {
                Ok(main) => native.main_of(request.raw) is Ok && main.request.raw
                    == native.requests@[request.raw].main,
                Err(error) => native.main_of(request.raw) == Err::<usize, RequestError>(error),
            },
{
}

/// A request may be handed to nginx exactly if it has a main request and a connection.
pub proof fn law_terminal_operations_need_main_and_connection(native: NativeState, raw: usize)
    ensures
        native.terminal_check(raw) is Ok <==> native.main_of(raw) is Ok
            && native.requests@[raw].connection is To,
        native.main_of(raw) matches Err(error) ==> native.terminal_check(raw) == Err::<
            (),
            RequestError,
        >(error),
        native.main_of(raw) is Ok && native.requests@[raw].connection is Null
            ==> native.terminal_check(raw) == Err::<(), RequestError>(
            RequestError::Connection(ConnectionError::NullConnection),
        ),
        native.main_of(raw) is Ok && native.requests@[raw].connection is Misaligned
            ==> native.terminal_check(raw) == Err::<(), RequestError>(
            RequestError::Connection(ConnectionError::MisalignedConnection),
        ),
{
}

/// Connection, logger and sent bytes are those that the request's connection pointer leads to.
pub proof fn law_connections_are_read_through(native: NativeState, view: RequestRef)
    ensures
        forall|connection: crate::native::NativeConnection|
            native.requests@[view.raw].connection == Pointer::To(connection) ==> {
                &&& forall|result: Result<&crate::native::NativeConnection, RequestError>|
                    #[trigger] call_ensures(RequestRef::connection, (&view, &native), result)
                        ==> (result matches Ok(found) && *found == connection)
                &&& forall|result: Result<Option<usize>, RequestError>| #[trigger]
                    call_ensures(RequestRef::log, (&view, &native), result) ==> {
                        &&& connection.log is Null <==> result == Ok::<Option<usize>, RequestError>(
                            None,
                        )
                        &&& connection.log matches Pointer::To(log) ==> result == Ok::<
                            Option<usize>,
                            RequestError,
                        >(Some(log))
                        &&& connection.log is Misaligned <==> result == Err::<
                            Option<usize>,
                            RequestError,
                        >(RequestError::Connection(ConnectionError::MisalignedLog))
                    }
                &&& forall|result: Result<u64, RequestError>| #[trigger]
                    call_ensures(RequestRef::bytes_sent, (&view, &native), result) ==> {
                        &&& connection.sent >= 0 <==> result is Ok
                        &&& result matches Ok(sent) ==> sent == connection.sent
                        &&& result matches Err(error) ==> error == RequestError::Connection(
                            ConnectionError::NegativeBytesSent,
                        )
                    }
            },
{
}

/// A request's pool is the one that its pool pointer leads to, unless that is null or misaligned.
pub proof fn law_pools_are_the_requests_own(native: NativeState, raw: usize)
    ensures
        native.pool_of(raw) is Ok <==> native.requests@[raw].pool != 0
            && native.requests@[raw].pool % 8 == 0,
        native.pool_of(raw) matches Ok(pool) ==> pool == native.requests@[raw].pool,
        native.pool_of(raw) == Err::<usize, RequestError>(RequestError::MissingPool)
            <==> native.requests@[raw].pool == 0,
        native.pool_of(raw) == Err::<usize, RequestError>(RequestError::MisalignedPool)
            <==> native.requests@[raw].pool % 8 != 0,
{
}

/// An HTTP module within nginx's bounds has the slot of its context index; another has none.
pub proof fn law_modules_have_their_context_slot(native: NativeState, module: ModuleDescriptor)
    ensures
        native.slot_index(module) is Ok <==> module.type_ == 0x50545448 && module.index
            < native.max_module && module.ctx_index < native.http_max_module,
        native.slot_index(module) matches Ok(index) ==> index == module.ctx_index,
        native.slot_index(module) == Err::<usize, HttpConfigError>(HttpConfigError::WrongModuleType)
            <==> module.type_ != 0x50545448,
        native.slot_index(module) matches Err(error) ==> error == HttpConfigError::WrongModuleType
            || error == HttpConfigError::ModuleIndexOutOfBounds,
{
}

/// A module's configuration is what its slot of the right array leads to.
pub proof fn law_configurations_come_from_their_own_array(
    native: NativeState,
    view: RequestRef,
    module: ModuleDescriptor,
)
    requires
        native.slot_index(module) is Ok,
    ensures
        forall|result: Result<Option<usize>, HttpConfigError>| #[trigger]
            call_ensures(RequestRef::main_conf, (&view, &native, module), result) ==> found_in(
                native.requests@[view.raw].main_conf,
                module,
                result,
            ),
        forall|result: Result<Option<usize>, HttpConfigError>| #[trigger]
            call_ensures(RequestRef::server_conf, (&view, &native, module), result) ==> found_in(
                native.requests@[view.raw].srv_conf,
                module,
                result,
            ),
        forall|result: Result<Option<usize>, HttpConfigError>| #[trigger]
            call_ensures(RequestRef::location_conf, (&view, &native, module), result) ==> found_in(
                native.requests@[view.raw].loc_conf,
                module,
                result,
            ),
{
}

/// Whether `result` is what the slot of `module` in `slots` leads to.
pub open spec fn found_in(
    slots: Pointer<Vec<usize>>,
    module: ModuleDescriptor,
    result: Result<Option<usize>, HttpConfigError>,
) -> bool {
    &&& slots is Misaligned <==> result is Err
    &&& result matches Err(error) ==> error == HttpConfigError::MisalignedSlots
    &&& result matches Ok(Some(conf)) ==> conf != 0 && slots is To
        && slots->To_0@[module.ctx_index as int] == conf
    &&& result matches Ok(None) ==> slots is Null || slots->To_0@[module.ctx_index as int] == 0
}

/// A status is shown exactly if it is a number from 100 to 599, and then as it is.
pub proof fn law_statuses_are_shown_as_they_are(native: NativeState, raw: usize, code: usize)
    ensures
        native.status_of(raw) is Some <==> 100 <= native.requests@[raw].headers_out.status <= 599,
        native.status_of(raw) matches Some(status) ==> status.0
            == native.requests@[raw].headers_out.status,
        forall|result: Result<HTTPStatus, InvalidHTTPStatusCode>| #[trigger]
            call_ensures(HTTPStatus::from_code, (code,), result) ==> {
                &&& result is Ok <==> 100 <= code <= 599
                &&& result matches Ok(status) ==> status.0 == code
            },
{
}

/// Times and counters are shown as they are, unless they are negative.
pub proof fn law_counters_are_shown_as_they_are(native: NativeState, view: RequestRef)
    ensures
        forall|result: Result<u64, RequestError>| #[trigger]
            call_ensures(RequestRef::start_sec, (&view, &native), result) ==> {
                &&& result is Ok <==> native.requests@[view.raw].start_sec >= 0
                &&& result matches Ok(value) ==> value == native.requests@[view.raw].start_sec
                &&& result matches Err(error) ==> error == RequestError::NegativeStartTime
            },
        forall|result: u64| #[trigger]
            call_ensures(RequestRef::start_msec, (&view, &native), result) ==> result
                == native.requests@[view.raw].start_msec,
        forall|result: Result<u64, RequestError>| #[trigger]
            call_ensures(RequestRef::request_length, (&view, &native), result) ==> {
                &&& result is Ok <==> native.requests@[view.raw].request_length >= 0
                &&& result matches Ok(value) ==> value == native.requests@[view.raw].request_length
                &&& result matches Err(error) ==> error == RequestError::NegativeCounter
            },
        forall|result: u32| #[trigger]
            call_ensures(RequestRef::subrequests_available, (&view, &native), result) ==> result
                == native.requests@[view.raw].subrequests,
        forall|result: bool| #[trigger]
            call_ensures(RequestRef::is_internal, (&view, &native), result) ==> result
                == native.requests@[view.raw].internal,
        forall|result: Option<usize>| #[trigger]
            call_ensures(RequestRef::upstream, (&view, &native), result) ==> {
                &&& result is None <==> native.requests@[view.raw].upstream == 0
                &&& result matches Some(upstream) ==> upstream
                    == native.requests@[view.raw].upstream
            },
{
}

/// The path and the full URI are each read from their own string.
pub proof fn law_paths_and_uris_are_read(native: NativeState, view: RequestRef)
    ensures
        forall|result: Result<&[u8], RequestError>| #[trigger]
            call_ensures(RequestRef::path, (&view, &native), result)
                && native.requests@[view.raw].uri.readable() ==> string_read(
                native.requests@[view.raw].uri,
                result,
            ),
        forall|result: Result<&[u8], RequestError>| #[trigger]
            call_ensures(RequestRef::unparsed_uri, (&view, &native), result)
                && native.requests@[view.raw].unparsed_uri.readable() ==> string_read(
                native.requests@[view.raw].unparsed_uri,
                result,
            ),
{
}

/// Whether `result` is what a readable string reads as.
pub open spec fn string_read(value: NativeString, result: Result<&[u8], RequestError>) -> bool {
    match result {
        Ok(bytes) => {
            &&& bytes@.len() == value.len
            &&& forall|i: int| 0 <= i < value.len ==> bytes@[i] == value.data->Some_0@[i]
        },
        Err(error) => error == RequestError::MissingStringData && value.len > 0 && value.data is None,
    }
}

/// A flag that was set reads back, and the other flags and the other requests stay as they were.
pub proof fn law_flags_read_back(value: bool, view: RequestRef)
    ensures
        forall|request: &mut RequestRefMut, native: &mut NativeState, result: bool|
            #[trigger] call_ensures(RequestRefMut::set_keepalive, (request, native, value), ())
                && #[trigger] call_ensures(RequestRef::keepalive, (&view, final(native)), result)
                && view.raw == request.raw ==> result == value,
        forall|request: &mut RequestRefMut, native: &mut NativeState, result: bool|
            #[trigger] call_ensures(RequestRefMut::set_header_only, (request, native, value), ())
                && #[trigger] call_ensures(RequestRef::header_only, (&view, final(native)), result)
                && view.raw == request.raw ==> result == value,
        forall|request: &mut RequestRefMut, native: &mut NativeState, result: bool|
            #[trigger] call_ensures(RequestRefMut::set_expect_trailers, (request, native, value), ())
                && #[trigger] call_ensures(RequestRef::expect_trailers, (&view, final(native)), result)
                && view.raw == request.raw ==> result == value,
        forall|request: &mut RequestRefMut, native: &mut NativeState|
            #[trigger] call_ensures(RequestRefMut::set_keepalive, (request, native, value), ())
                ==> only_flags_differ(*native, *final(native), request.raw)
                && final(native).requests@[request.raw].header_only
                == native.requests@[request.raw].header_only
                && final(native).requests@[request.raw].expect_trailers
                == native.requests@[request.raw].expect_trailers
                && final(native).requests@[request.raw].header_sent
                == native.requests@[request.raw].header_sent,
        forall|request: &mut RequestRefMut, native: &mut NativeState|
            #[trigger] call_ensures(RequestRefMut::set_header_only, (request, native, value), ())
                ==> only_flags_differ(*native, *final(native), request.raw)
                && final(native).requests@[request.raw].keepalive
                == native.requests@[request.raw].keepalive
                && final(native).requests@[request.raw].expect_trailers
                == native.requests@[request.raw].expect_trailers
                && final(native).requests@[request.raw].header_sent
                == native.requests@[request.raw].header_sent,
        forall|request: &mut RequestRefMut, native: &mut NativeState|
            #[trigger] call_ensures(RequestRefMut::set_expect_trailers, (request, native, value), ())
                ==> only_flags_differ(*native, *final(native), request.raw)
                && final(native).requests@[request.raw].keepalive
                == native.requests@[request.raw].keepalive
                && final(native).requests@[request.raw].header_only
                == native.requests@[request.raw].header_only
                && final(native).requests@[request.raw].header_sent
                == native.requests@[request.raw].header_sent,
        forall|request: &mut RequestRefMut, native: &mut NativeState|
            #[trigger] call_ensures(RequestRefMut::set_header_sent, (request, native, value), ())
                ==> only_flags_differ(*native, *final(native), request.raw)
                && final(native).requests@[request.raw].header_sent == value
                && final(native).requests@[request.raw].keepalive
                == native.requests@[request.raw].keepalive
                && final(native).requests@[request.raw].header_only
                == native.requests@[request.raw].header_only
                && final(native).requests@[request.raw].expect_trailers
                == native.requests@[request.raw].expect_trailers,
{
}

/// Whether `after` differs from `before` at most in the response flags of the request `raw`.
pub open spec fn only_flags_differ(before: NativeState, after: NativeState, raw: usize) -> bool {
    &&& after == (NativeState { requests: after.requests, ..before })
    &&& forall|other: usize| other != raw ==> #[trigger] after.requests@[other] == before.requests@[other]
    &&& after.requests@[raw] == (NativeRequest {
        keepalive: after.requests@[raw].keepalive,
        header_only: after.requests@[raw].header_only,
        expect_trailers: after.requests@[raw].expect_trailers,
        header_sent: after.requests@[raw].header_sent,
        ..before.requests@[raw]
    })
}

/// A status that was set is the one that nginx finds, and a valid one reads back.
pub proof fn law_statuses_read_back(status: HTTPStatus, view: RequestRef)
    ensures
        forall|request: &mut RequestRefMut, native: &mut NativeState, result: Option<HTTPStatus>|
            #[trigger] call_ensures(RequestRefMut::set_status, (request, native, status), ())
                && #[trigger] call_ensures(RequestRef::status, (&view, final(native)), result)
                && view.raw == request.raw ==> {
                &&& final(native).requests@[request.raw].headers_out.status == status.0
                &&& 100 <= status.0 <= 599 ==> result == Some(status)
                &&& !(100 <= status.0 <= 599) ==> result is None
            },
{
}

/// Response headers and bodies are sent for the request that they are asked for, if it may be
/// handed to nginx; a chain has to come from the request's own pool.
pub proof fn law_output_goes_to_its_own_request(native: NativeState, body: PoolChain)
    ensures
        forall|request: &mut RequestRefMut, result: Result<NginxCall, RequestError>| #[trigger]
            call_ensures(RequestRefMut::send_header, (request, &native), result) ==> {
                &&& result is Ok <==> native.terminal_check(request.raw) is Ok
                &&& result matches Ok(call) ==> call == (NginxCall::SendHeader {
                    request: request.raw,
                })
            },
        forall|request: &mut RequestRefMut, result: Result<NginxCall, RequestError>| #[trigger]
            call_ensures(RequestRefMut::output_filter, (request, &native, &body), result) ==> {
                &&& result is Ok <==> native.terminal_check(request.raw) is Ok && native.pool_of(
                    request.raw,
                ) is Ok && body.pool == native.requests@[request.raw].pool
                &&& result matches Ok(call) ==> call == (NginxCall::OutputFilter {
                    request: request.raw,
                })
                &&& native.terminal_check(request.raw) matches Err(error) ==> result == Err::<
                    NginxCall,
                    RequestError,
                >(error)
                &&& native.terminal_check(request.raw) is Ok && native.pool_of(request.raw) is Ok
                    && body.pool != native.requests@[request.raw].pool ==> result == Err::<
                    NginxCall,
                    RequestError,
                >(RequestError::ForeignPool)
            },
{
}

} // verus!
