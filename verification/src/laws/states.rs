//! The native state: what is put into it is what is found there.

use vstd::prelude::*;

use crate::native::{is_aligned, NativePool, NativeRequest, NativeState, NativeString, Pointer};
use crate::request::view::{RequestRef, RequestRefMut};
use crate::upstream::callback::UpstreamCallbackSlot;
use crate::upstream::peer::NativeUpstream;
use crate::upstream::state::{NativeStateArray, UpstreamStateError, UpstreamStates};
use crate::variable::NativeCoreMain;

verus! {

/// Whether `after` has everything of `before` but its requests.
pub open spec fn apart_from_requests(before: NativeState, after: NativeState) -> bool {
    &&& after.pools == before.pools
    &&& beside_requests_and_pools(before, after)
}

/// Whether `after` has everything of `before` but its requests and pools.
pub open spec fn beside_requests_and_pools(before: NativeState, after: NativeState) -> bool {
    &&& after.core_mains == before.core_mains
    &&& after.upstreams == before.upstreams
    &&& after.callback_slots == before.callback_slots
    &&& after.max_module == before.max_module
    &&& after.http_max_module == before.http_max_module
    &&& after.core_module == before.core_module
    &&& after.next_owner == before.next_owner
}

/// A request that is put at an address is the one found there, a request that is taken is the one
/// that was there, and no other address is touched.
pub proof fn law_requests_are_found_where_they_were_put(raw: usize, request: NativeRequest)
    ensures
        forall|state: &mut NativeState| #[trigger]
            call_ensures(NativeState::put_request, (state, raw, request), ()) ==> {
                &&& final(state).requests@.contains_key(raw)
                &&& final(state).requests@[raw] == request
                &&& forall|other: usize|
                    other != raw ==> (#[trigger] final(state).requests@.contains_key(other)
                        <==> state.requests@.contains_key(other)) && final(state).requests@[other]
                        == state.requests@[other]
                &&& apart_from_requests(*state, *final(state))
            },
        forall|state: &mut NativeState, taken: NativeRequest| #[trigger]
            call_ensures(NativeState::take_request, (state, raw), taken) ==> {
                &&& taken == state.requests@[raw]
                &&& !final(state).requests@.contains_key(raw)
                &&& forall|other: usize|
                    other != raw ==> (#[trigger] final(state).requests@.contains_key(other)
                        <==> state.requests@.contains_key(other)) && final(state).requests@[other]
                        == state.requests@[other]
                &&& apart_from_requests(*state, *final(state))
            },
        forall|state: NativeState, found: &NativeRequest| #[trigger]
            call_ensures(NativeState::request, (&state, raw), found) ==> *found
                == state.requests@[raw],
        forall|state: &mut NativeState, count: u16| #[trigger]
            call_ensures(NativeState::set_count, (state, raw, count), ()) ==> {
                &&& final(state).requests@[raw].count == count
                &&& (NativeRequest {
                    count: state.requests@[raw].count,
                    ..final(state).requests@[raw]
                }) == state.requests@[raw]
                &&& forall|other: usize|
                    other != raw ==> #[trigger] final(state).requests@[other]
                        == state.requests@[other]
                &&& apart_from_requests(*state, *final(state))
            },
{
}

/// A pool that is put at an address is the one found there, a pool that is taken is the one that
/// was there, and no other address is touched.
pub proof fn law_pools_are_found_where_they_were_put(raw: usize, pool: NativePool)
    ensures
        forall|state: &mut NativeState| #[trigger]
            call_ensures(NativeState::put_pool, (state, raw, pool), ()) ==> {
                &&& final(state).pools@.contains_key(raw)
                &&& final(state).pools@[raw] == pool
                &&& forall|other: usize|
                    other != raw ==> (#[trigger] final(state).pools@.contains_key(other)
                        <==> state.pools@.contains_key(other)) && final(state).pools@[other]
                        == state.pools@[other]
                &&& final(state).requests == state.requests
                &&& beside_requests_and_pools(*state, *final(state))
            },
        forall|state: &mut NativeState, taken: NativePool| #[trigger]
            call_ensures(NativeState::take_pool, (state, raw), taken) ==> {
                &&& taken == state.pools@[raw]
                &&& !final(state).pools@.contains_key(raw)
                &&& forall|other: usize|
                    other != raw ==> (#[trigger] final(state).pools@.contains_key(other)
                        <==> state.pools@.contains_key(other)) && final(state).pools@[other]
                        == state.pools@[other]
                &&& final(state).requests == state.requests
                &&& beside_requests_and_pools(*state, *final(state))
            },
        forall|state: NativeState, found: &NativePool| #[trigger]
            call_ensures(NativeState::pool, (&state, raw), found) ==> *found == state.pools@[raw],
        forall|blocks: Vec<usize>, made: NativePool| #[trigger]
            call_ensures(NativePool::new, (blocks,), made) ==> {
                &&& made.blocks@ == blocks@
                &&& made.registry is None
                &&& made.contexts@.len() == 0
                &&& made.files@.len() == 0
            },
{
}

/// Main configurations, upstreams and callback slots are found where they were put, each kind apart
/// from the others.
pub proof fn law_configurations_are_found_where_they_were_put(
    raw: usize,
    core_main: NativeCoreMain,
    upstream: NativeUpstream,
    slot: UpstreamCallbackSlot,
)
    ensures
        forall|state: &mut NativeState| #[trigger]
            call_ensures(NativeState::put_core_main, (state, raw, core_main), ()) ==> {
                &&& final(state).core_mains@[raw] == core_main
                &&& forall|other: usize|
                    other != raw ==> #[trigger] final(state).core_mains@[other]
                        == state.core_mains@[other]
                &&& final(state).requests == state.requests && final(state).pools == state.pools
                &&& final(state).upstreams == state.upstreams
                &&& final(state).callback_slots == state.callback_slots
            },
        forall|state: &mut NativeState, taken: NativeCoreMain| #[trigger]
            call_ensures(NativeState::take_core_main, (state, raw), taken) ==> taken
                == state.core_mains@[raw] && !final(state).core_mains@.contains_key(raw),
        forall|state: NativeState, found: &NativeCoreMain| #[trigger]
            call_ensures(NativeState::core_main, (&state, raw), found) ==> *found
                == state.core_mains@[raw],
        forall|state: &mut NativeState| #[trigger]
            call_ensures(NativeState::put_upstream, (state, raw, upstream), ()) ==> {
                &&& final(state).upstreams@[raw] == upstream
                &&& forall|other: usize|
                    other != raw ==> #[trigger] final(state).upstreams@[other]
                        == state.upstreams@[other]
                &&& final(state).requests == state.requests && final(state).pools == state.pools
                &&& final(state).core_mains == state.core_mains
                &&& final(state).callback_slots == state.callback_slots
            },
        forall|state: NativeState, found: NativeUpstream| #[trigger]
            call_ensures(NativeState::upstream, (&state, raw), found) ==> found
                == state.upstreams@[raw],
        forall|state: &mut NativeState| #[trigger]
            call_ensures(NativeState::put_callback_slot, (state, raw, slot), ()) ==> {
                &&& final(state).callback_slots@[raw] == slot
                &&& forall|other: usize|
                    other != raw ==> #[trigger] final(state).callback_slots@[other]
                        == state.callback_slots@[other]
                &&& final(state).requests == state.requests && final(state).pools == state.pools
                &&& final(state).core_mains == state.core_mains
                &&& final(state).upstreams == state.upstreams
            },
        forall|state: NativeState, found: UpstreamCallbackSlot| #[trigger]
            call_ensures(NativeState::callback_slot, (&state, raw), found) ==> found
                == state.callback_slots@[raw],
{
}

/// A new state holds nothing, and counts modules up to the bounds that it is given; its first owner
/// is 1, which is no null.
pub proof fn law_new_states_are_empty(max_module: usize, http_max_module: usize)
    ensures
        forall|state: NativeState| #[trigger]
            call_ensures(NativeState::new, (max_module, http_max_module), state) ==> {
                &&& forall|raw: usize| !#[trigger] state.requests@.contains_key(raw)
                &&& forall|raw: usize| !#[trigger] state.pools@.contains_key(raw)
                &&& forall|raw: usize| !#[trigger] state.core_mains@.contains_key(raw)
                &&& forall|raw: usize| !#[trigger] state.upstreams@.contains_key(raw)
                &&& forall|raw: usize| !#[trigger] state.callback_slots@.contains_key(raw)
                &&& state.max_module == max_module
                &&& state.http_max_module == http_max_module
                &&& state.core_module.type_ == 0x50545448
                &&& state.next_owner == 1
            },
        forall|pointer: usize, result: bool| #[trigger]
            call_ensures(is_aligned, (pointer,), result) ==> (result <==> pointer % 8 == 0),
{
}

/// A copy of a native string reads as the string does; an empty one reads as no bytes.
pub proof fn law_string_copies_read_the_same(value: NativeString)
    ensures
        forall|copy: NativeString| #[trigger]
            call_ensures(NativeString::duplicate, (&value,), copy) ==> {
                &&& copy.len == value.len
                &&& copy.data is Some <==> value.data is Some
                &&& copy.data is Some ==> copy.data->0@ == value.data->0@
            },
        forall|empty: NativeString| #[trigger]
            call_ensures(NativeString::empty, (), empty) ==> empty.len == 0 && empty.data is None,
        forall|bytes: &[u8]| #[trigger]
            call_ensures(NativeString::as_bytes, (&value,), bytes) ==> {
                &&& value.data is Some && value.len > 0 ==> bytes@ == value.data->0@.take(
                    value.len as int,
                )
                &&& value.data is None || value.len == 0 ==> bytes@.len() == 0
            },
{
}

/// Both views of a request read the attempts of its own array.
pub proof fn law_views_read_their_attempts(
    native: NativeState,
    shared: RequestRef,
    unique: RequestRefMut,
)
    ensures
        forall|result: Result<Option<UpstreamStates>, UpstreamStateError>| #[trigger]
            call_ensures(RequestRef::upstream_states, (&shared, &native), result) ==> attempts_read(
                native.requests@[shared.raw].upstream_states,
                result,
            ),
        forall|result: Result<Option<UpstreamStates>, UpstreamStateError>| #[trigger]
            call_ensures(RequestRefMut::upstream_states, (&unique, &native), result)
                ==> attempts_read(native.requests@[unique.raw].upstream_states, result),
{
}

/// Whether `result` is what reading the attempts behind `array` gives.
pub open spec fn attempts_read(
    array: Pointer<NativeStateArray>,
    result: Result<Option<UpstreamStates>, UpstreamStateError>,
) -> bool {
    let raw = array->To_0;
    let fits = raw.size == 72 && raw.nelts <= raw.nalloc && (raw.elts is To || raw.elts is Null
        && raw.nelts == 0);
    &&& array is Null ==> (result matches Ok(None))
    &&& array is Misaligned ==> (result matches Err(error) && error
        == UpstreamStateError::MisalignedArray)
    &&& array is To && !fits ==> (result matches Err(error) && error
        == UpstreamStateError::InvalidArray)
    &&& array is To && fits && raw.elts is To ==> (result matches Ok(Some(states)) && states@
        == raw.elts->To_0@.take(raw.nelts as int))
    &&& array is To && fits && raw.elts is Null ==> (result matches Ok(Some(states))
        && states@.len() == 0)
}

} // verus!
