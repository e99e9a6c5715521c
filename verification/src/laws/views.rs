//! Exclusive request views, and what a view reads of its request.

use vstd::prelude::*;

use crate::native::{
    ConnectionError, HttpConfigError, ModuleDescriptor, NativeConnection, NativeRequest,
    NativeState, NativeString, Pointer,
};
use crate::request::view::{
    conf_slot, module_slot_index, ConnectionRefMut, MainRequestRefMut, RequestError, RequestRef,
    RequestRefMut,
};
use crate::status::HTTPStatus;

verus! {

/// A shared and an exclusive view of one request read the same of it.
pub proof fn law_both_views_read_the_same(native: NativeState)
    ensures
        forall|shared: RequestRef, unique: RequestRefMut, left: Result<bool, RequestError>, right: Result<bool, RequestError>|
            #![trigger
                call_ensures(RequestRef::is_main, (&shared, &native), left),
                call_ensures(RequestRefMut::is_main, (&unique, &native), right),
            ]
            call_ensures(RequestRef::is_main, (&shared, &native), left) && call_ensures(
                RequestRefMut::is_main,
                (&unique, &native),
                right,
            ) && shared.raw == unique.raw ==> left == right,
        forall|shared: RequestRef, unique: RequestRefMut, left: bool, right: bool|
            #![trigger
                call_ensures(RequestRef::is_internal, (&shared, &native), left),
                call_ensures(RequestRefMut::is_internal, (&unique, &native), right),
            ]
            call_ensures(RequestRef::is_internal, (&shared, &native), left) && call_ensures(
                RequestRefMut::is_internal,
                (&unique, &native),
                right,
            ) && shared.raw == unique.raw ==> left == right,
        forall|shared: RequestRef, unique: RequestRefMut, left: u32, right: u32|
            #![trigger
                call_ensures(RequestRef::subrequests_available, (&shared, &native), left),
                call_ensures(RequestRefMut::subrequests_available, (&unique, &native), right),
            ]
            call_ensures(RequestRef::subrequests_available, (&shared, &native), left) && call_ensures(
                RequestRefMut::subrequests_available,
                (&unique, &native),
                right,
            ) && shared.raw == unique.raw ==> left == right,
        forall|shared: RequestRef, unique: RequestRefMut, left: Result<RequestRef, RequestError>, right: Result<RequestRef, RequestError>|
            #![trigger
                call_ensures(RequestRef::main, (&shared, &native), left),
                call_ensures(RequestRefMut::main, (&unique, &native), right),
            ]
            call_ensures(RequestRef::main, (&shared, &native), left) && call_ensures(
                RequestRefMut::main,
                (&unique, &native),
                right,
            ) && shared.raw == unique.raw ==> left == right,
        forall|shared: RequestRef, unique: RequestRefMut, left: Result<usize, RequestError>, right: Result<usize, RequestError>|
            #![trigger
                call_ensures(RequestRef::pool, (&shared, &native), left),
                call_ensures(RequestRefMut::pool, (&unique, &native), right),
            ]
            call_ensures(RequestRef::pool, (&shared, &native), left) && call_ensures(
                RequestRefMut::pool,
                (&unique, &native),
                right,
            ) && shared.raw == unique.raw ==> left == right,
        forall|shared: RequestRef, unique: RequestRefMut, left: Result<Option<usize>, RequestError>, right: Result<Option<usize>, RequestError>|
            #![trigger
                call_ensures(RequestRef::log, (&shared, &native), left),
                call_ensures(RequestRefMut::log, (&unique, &native), right),
            ]
            call_ensures(RequestRef::log, (&shared, &native), left) && call_ensures(
                RequestRefMut::log,
                (&unique, &native),
                right,
            ) && shared.raw == unique.raw ==> left == right,
        forall|shared: RequestRef, unique: RequestRefMut, left: Option<usize>, right: Option<usize>|
            #![trigger
                call_ensures(RequestRef::upstream, (&shared, &native), left),
                call_ensures(RequestRefMut::upstream, (&unique, &native), right),
            ]
            call_ensures(RequestRef::upstream, (&shared, &native), left) && call_ensures(
                RequestRefMut::upstream,
                (&unique, &native),
                right,
            ) && shared.raw == unique.raw ==> left == right,
        forall|shared: RequestRef, unique: RequestRefMut, left: Result<u64, RequestError>, right: Result<u64, RequestError>|
            #![trigger
                call_ensures(RequestRef::start_sec, (&shared, &native), left),
                call_ensures(RequestRefMut::start_sec, (&unique, &native), right),
            ]
            call_ensures(RequestRef::start_sec, (&shared, &native), left) && call_ensures(
                RequestRefMut::start_sec,
                (&unique, &native),
                right,
            ) && shared.raw == unique.raw ==> left == right,
        forall|shared: RequestRef, unique: RequestRefMut, left: u64, right: u64|
            #![trigger
                call_ensures(RequestRef::start_msec, (&shared, &native), left),
                call_ensures(RequestRefMut::start_msec, (&unique, &native), right),
            ]
            call_ensures(RequestRef::start_msec, (&shared, &native), left) && call_ensures(
                RequestRefMut::start_msec,
                (&unique, &native),
                right,
            ) && shared.raw == unique.raw ==> left == right,
        forall|shared: RequestRef, unique: RequestRefMut, left: Result<u64, RequestError>, right: Result<u64, RequestError>|
            #![trigger
                call_ensures(RequestRef::request_length, (&shared, &native), left),
                call_ensures(RequestRefMut::request_length, (&unique, &native), right),
            ]
            call_ensures(RequestRef::request_length, (&shared, &native), left) && call_ensures(
                RequestRefMut::request_length,
                (&unique, &native),
                right,
            ) && shared.raw == unique.raw ==> left == right,
        forall|shared: RequestRef, unique: RequestRefMut, left: Result<u64, RequestError>, right: Result<u64, RequestError>|
            #![trigger
                call_ensures(RequestRef::bytes_sent, (&shared, &native), left),
                call_ensures(RequestRefMut::bytes_sent, (&unique, &native), right),
            ]
            call_ensures(RequestRef::bytes_sent, (&shared, &native), left) && call_ensures(
                RequestRefMut::bytes_sent,
                (&unique, &native),
                right,
            ) && shared.raw == unique.raw ==> left == right,
        forall|shared: RequestRef, unique: RequestRefMut, left: Option<HTTPStatus>, right: Option<HTTPStatus>|
            #![trigger
                call_ensures(RequestRef::status, (&shared, &native), left),
                call_ensures(RequestRefMut::status, (&unique, &native), right),
            ]
            call_ensures(RequestRef::status, (&shared, &native), left) && call_ensures(
                RequestRefMut::status,
                (&unique, &native),
                right,
            ) && shared.raw == unique.raw ==> left == right,
        forall|shared: RequestRef, unique: RequestRefMut, left: bool, right: bool|
            #![trigger
                call_ensures(RequestRef::header_only, (&shared, &native), left),
                call_ensures(RequestRefMut::header_only, (&unique, &native), right),
            ]
            call_ensures(RequestRef::header_only, (&shared, &native), left) && call_ensures(
                RequestRefMut::header_only,
                (&unique, &native),
                right,
            ) && shared.raw == unique.raw ==> left == right,
        forall|shared: RequestRef, unique: RequestRefMut, left: bool, right: bool|
            #![trigger
                call_ensures(RequestRef::keepalive, (&shared, &native), left),
                call_ensures(RequestRefMut::keepalive, (&unique, &native), right),
            ]
            call_ensures(RequestRef::keepalive, (&shared, &native), left) && call_ensures(
                RequestRefMut::keepalive,
                (&unique, &native),
                right,
            ) && shared.raw == unique.raw ==> left == right,
        forall|shared: RequestRef, unique: RequestRefMut, left: bool, right: bool|
            #![trigger
                call_ensures(RequestRef::expect_trailers, (&shared, &native), left),
                call_ensures(RequestRefMut::expect_trailers, (&unique, &native), right),
            ]
            call_ensures(RequestRef::expect_trailers, (&shared, &native), left) && call_ensures(
                RequestRefMut::expect_trailers,
                (&unique, &native),
                right,
            ) && shared.raw == unique.raw ==> left == right,
{
}

/// A shared and an exclusive view of one request read the same configurations.
pub proof fn law_both_views_read_the_same_configurations(
    native: NativeState,
    module: ModuleDescriptor,
)
    ensures
        forall|shared: RequestRef, unique: RequestRefMut, left: Result<Option<usize>, HttpConfigError>, right: Result<Option<usize>, HttpConfigError>|
            #![trigger
                call_ensures(RequestRef::main_conf, (&shared, &native, module), left),
                call_ensures(RequestRefMut::main_conf, (&unique, &native, module), right),
            ]
            call_ensures(RequestRef::main_conf, (&shared, &native, module), left) && call_ensures(
                RequestRefMut::main_conf,
                (&unique, &native, module),
                right,
            ) && shared.raw == unique.raw ==> left == right,
        forall|shared: RequestRef, unique: RequestRefMut, left: Result<Option<usize>, HttpConfigError>, right: Result<Option<usize>, HttpConfigError>|
            #![trigger
                call_ensures(RequestRef::server_conf, (&shared, &native, module), left),
                call_ensures(RequestRefMut::server_conf, (&unique, &native, module), right),
            ]
            call_ensures(RequestRef::server_conf, (&shared, &native, module), left) && call_ensures(
                RequestRefMut::server_conf,
                (&unique, &native, module),
                right,
            ) && shared.raw == unique.raw ==> left == right,
        forall|shared: RequestRef, unique: RequestRefMut, left: Result<Option<usize>, HttpConfigError>, right: Result<Option<usize>, HttpConfigError>|
            #![trigger
                call_ensures(RequestRef::location_conf, (&shared, &native, module), left),
                call_ensures(RequestRefMut::location_conf, (&unique, &native, module), right),
            ]
            call_ensures(RequestRef::location_conf, (&shared, &native, module), left) && call_ensures(
                RequestRefMut::location_conf,
                (&unique, &native, module),
                right,
            ) && shared.raw == unique.raw ==> left == right,
{
}

/// A view, and every view made of it, names the request that it was made for.
pub proof fn law_views_keep_their_request(native: NativeState, shared: RequestRef, unique: RequestRefMut)
    ensures
        forall|raw: usize| #[trigger]
            call_ensures(RequestRef::as_ptr, (&shared,), raw) ==> raw == shared.raw,
        forall|raw: usize| #[trigger]
            call_ensures(RequestRefMut::as_ptr, (&unique,), raw) ==> raw == unique.raw,
        forall|view: RequestRef| #[trigger]
            call_ensures(RequestRefMut::view, (&unique,), view) ==> view.raw == unique.raw,
        forall|main: MainRequestRefMut, view: RequestRef| #[trigger]
            call_ensures(MainRequestRefMut::view, (&main,), view) ==> view.raw == main.request.raw,
        forall|result: Result<usize, RequestError>| #[trigger]
            call_ensures(RequestRef::main_raw, (&shared, &native), result) ==> result
                == native.main_of(shared.raw),
        forall|raw: Result<usize, RequestError>, view: Result<RequestRef, RequestError>|
            #![trigger
                call_ensures(RequestRef::main_raw, (&shared, &native), raw),
                call_ensures(RequestRef::main, (&shared, &native), view),
            ]
            call_ensures(RequestRef::main_raw, (&shared, &native), raw) && call_ensures(
                RequestRef::main,
                (&shared, &native),
                view,
            ) ==> {
                &&& raw is Ok <==> view is Ok
                &&& raw matches Ok(main) ==> (view matches Ok(v) && v.raw == main)
                &&& raw matches Err(error) ==> (view matches Err(e) && e == error)
            },
{
}

/// A module has its context index as slot, if it is an HTTP module and both of its indices are
/// below their bounds. A configuration is what that slot holds; a zero slot holds none.
pub proof fn law_slots_hold_configurations(
    native: NativeState,
    slots: Pointer<Vec<usize>>,
    module: ModuleDescriptor,
)
    ensures
        forall|result: Result<usize, HttpConfigError>| #[trigger]
            call_ensures(module_slot_index, (&native, module), result) ==> {
                let http = module.type_ == 0x50545448;
                let bounded = module.index < native.max_module && module.ctx_index
                    < native.http_max_module;
                &&& result is Ok <==> http && bounded
                &&& result matches Ok(index) ==> index == module.ctx_index
                &&& !http ==> result == Err::<usize, HttpConfigError>(
                    HttpConfigError::WrongModuleType,
                )
                &&& http && !bounded ==> result == Err::<usize, HttpConfigError>(
                    HttpConfigError::ModuleIndexOutOfBounds,
                )
            },
        forall|
            index: Result<usize, HttpConfigError>,
            result: Result<Option<usize>, HttpConfigError>,
        |
            #![trigger
                call_ensures(module_slot_index, (&native, module), index),
                call_ensures(conf_slot, (&native, &slots, module), result),
            ]
            call_ensures(module_slot_index, (&native, module), index) && call_ensures(
                conf_slot,
                (&native, &slots, module),
                result,
            ) ==> {
                &&& index matches Err(error) ==> (result matches Err(e) && e == error)
                &&& index is Ok && slots is Null ==> (result matches Ok(None))
                &&& index is Ok && slots is Misaligned ==> (result matches Err(e) && e
                    == HttpConfigError::MisalignedSlots)
                &&& index is Ok && slots is To ==> {
                    let held = slots->To_0@[index->Ok_0 as int];
                    &&& held == 0 ==> (result matches Ok(None))
                    &&& held != 0 ==> (result matches Ok(Some(conf)) && conf == held)
                }
            },
{
}

/// The exclusive view of a connection reads and replaces the connection of its own request. What
/// was put there is what is read next, and no other request and no other part of it changes.
pub proof fn law_connections_read_back(native: NativeState, reference: ConnectionRefMut)
    ensures
        forall|connection: &NativeConnection| #[trigger]
            call_ensures(ConnectionRefMut::get, (&reference, &native), connection)
                && native.requests@[reference.request].connection is To ==> Pointer::To(*connection)
                == native.requests@[reference.request].connection,
        forall|view: &mut ConnectionRefMut, state: &mut NativeState, connection: NativeConnection|
            #[trigger] call_ensures(ConnectionRefMut::set, (view, state, connection), ()) ==> {
                let raw = view.request;
                &&& *final(view) == *view
                &&& final(state).requests@[raw].connection == Pointer::To(connection)
                &&& (NativeRequest {
                    connection: state.requests@[raw].connection,
                    ..final(state).requests@[raw]
                }) == state.requests@[raw]
                &&& forall|other: usize|
                    other != raw ==> #[trigger] final(state).requests@[other]
                        == state.requests@[other]
                &&& final(state).pools == state.pools
                &&& final(state).upstreams == state.upstreams
                &&& final(state).core_mains == state.core_mains
                &&& final(state).callback_slots == state.callback_slots
            },
        forall|view: &mut RequestRefMut, result: Result<ConnectionRefMut, RequestError>| #[trigger]
            call_ensures(RequestRefMut::connection_mut, (view, &native), result) ==> {
                let pointer = native.requests@[view.raw].connection;
                &&& *final(view) == *view
                &&& result is Ok <==> pointer is To
                &&& result matches Ok(connection) ==> connection.request == view.raw
                &&& pointer is Null ==> (result matches Err(e) && e == RequestError::Connection(
                    ConnectionError::NullConnection,
                ))
                &&& pointer is Misaligned ==> (result matches Err(e) && e
                    == RequestError::Connection(ConnectionError::MisalignedConnection))
            },
        forall|view: RequestRefMut, result: Result<&NativeConnection, RequestError>| #[trigger]
            call_ensures(RequestRefMut::connection, (&view, &native), result) ==> {
                let pointer = native.requests@[view.raw].connection;
                &&& result is Ok <==> pointer is To
                &&& result matches Ok(connection) ==> pointer == Pointer::To(*connection)
                &&& pointer is Null ==> (result matches Err(e) && e == RequestError::Connection(
                    ConnectionError::NullConnection,
                ))
                &&& pointer is Misaligned ==> (result matches Err(e) && e
                    == RequestError::Connection(ConnectionError::MisalignedConnection))
            },
{
}

/// An exclusive view reads the path and the unparsed URI of its own request, byte for byte, and
/// misses them only where a length stands without data.
pub proof fn law_exclusive_views_read_paths(native: NativeState, view: RequestRefMut)
    ensures
        forall|result: Result<&[u8], RequestError>| #[trigger]
            call_ensures(RequestRefMut::path, (&view, &native), result) ==> string_read(
                native.requests@[view.raw].uri,
                result,
            ),
        forall|result: Result<&[u8], RequestError>| #[trigger]
            call_ensures(RequestRefMut::unparsed_uri, (&view, &native), result) ==> string_read(
                native.requests@[view.raw].unparsed_uri,
                result,
            ),
{
}

/// Whether `result` is what reading `value` gives.
pub open spec fn string_read(value: NativeString, result: Result<&[u8], RequestError>) -> bool {
    match result {
        Ok(bytes) => value.len == 0 && bytes@.len() == 0 || value.data is Some && bytes@
            == value.data->0@.take(value.len as int),
        Err(error) => value.len > 0 && value.data is None && error
            == RequestError::MissingStringData,
    }
}

/// Work under a checked pointer runs on a view of that very request, exactly if the pointer is not
/// null, is a multiple of eight and leads to a value with nginx's HTTP signature.
pub proof fn law_checked_work_runs_on_its_request<
    R,
    F: FnOnce(RequestRef) -> R,
    G: FnOnce(RequestRefMut) -> R,
>(native: NativeState, request: usize, f: F, g: G)
    ensures
        forall|result: Result<R, RequestError>|
            #![trigger call_ensures(RequestRef::with_raw::<R, F>, (&native, request, f), result)]
            call_ensures(RequestRef::with_raw::<R, F>, (&native, request, f), result) ==> {
                &&& result is Ok <==> request != 0 && request % 8 == 0
                    && native.requests@[request].signature == 0x50545448
                &&& result matches Ok(value) ==> f.ensures((RequestRef { raw: request },), value)
            },
        forall|result: Result<R, RequestError>|
            #![trigger call_ensures(RequestRefMut::with_raw::<R, G>, (&native, request, g), result)]
            call_ensures(RequestRefMut::with_raw::<R, G>, (&native, request, g), result) ==> {
                &&& result is Ok <==> request != 0 && request % 8 == 0
                    && native.requests@[request].signature == 0x50545448
                &&& result matches Ok(value) ==> g.ensures((RequestRefMut { raw: request },), value)
            },
{
}

/// A terminal operation is let through exactly if the main request can be found and there is a
/// client connection; a broken chain of parents is reported before a broken connection.
pub proof fn law_terminal_operations_are_let_through(native: NativeState, view: RequestRefMut)
    ensures
        forall|result: Result<(), RequestError>, main: Result<bool, RequestError>|
            #![trigger
                call_ensures(RequestRefMut::validate_terminal_operation, (&view, &native), result),
                call_ensures(RequestRefMut::is_main, (&view, &native), main),
            ]
            call_ensures(RequestRefMut::validate_terminal_operation, (&view, &native), result)
                && call_ensures(RequestRefMut::is_main, (&view, &native), main) ==> {
                let pointer = native.requests@[view.raw].connection;
                &&& result is Ok <==> main is Ok && pointer is To
                &&& main matches Err(error) ==> (result matches Err(e) && e == error)
                &&& main is Ok && pointer is Null ==> (result matches Err(e) && e
                    == RequestError::Connection(ConnectionError::NullConnection))
                &&& main is Ok && pointer is Misaligned ==> (result matches Err(e) && e
                    == RequestError::Connection(ConnectionError::MisalignedConnection))
            },
{
}

} // verus!
