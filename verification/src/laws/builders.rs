//! Builders of replacement headers.

use vstd::prelude::*;

use crate::bytes::same_ignoring_case;
use crate::laws::headers::{
    entry_blocks, frames, input_slot, output_slot, slot_title, well_linked,
};
use crate::native::{NativePool, NativeRequest, NativeState};
use crate::request::header_builders::{
    clone_header_list, HttpHeadersInBuilder, HttpHeadersOutBuilder, HttpTrailersOutBuilder,
};
use crate::request::header_list::hash_lowercase;
use crate::request::header_slots::{HeaderSlot, NativeHeadersOut};
use crate::request::headers::{HeaderBuildError, NativeList};
use crate::request::view::RequestRefMut;

verus! {

/// Whether a list could be made: the request has a pool with a block, and the capacity is one that
/// a list can have.
pub open spec fn list_possible(native: NativeState, raw: usize, capacity: usize) -> bool {
    let pool = native.requests@[raw].pool;
    &&& pool != 0 && pool % 8 == 0
    &&& capacity > 0 && capacity * 56 <= isize::MAX
    &&& native.pools@[pool].blocks@.len() > 0
}

/// Whether `error` says why a list could not be made.
pub open spec fn list_impossible(
    native: NativeState,
    raw: usize,
    capacity: usize,
    error: HeaderBuildError,
) -> bool {
    let pool = native.requests@[raw].pool;
    let fits = capacity > 0 && capacity * 56 <= isize::MAX;
    match error {
        HeaderBuildError::Request(_) => pool == 0 || pool % 8 != 0,
        HeaderBuildError::InvalidCapacity => pool != 0 && pool % 8 == 0 && !fits,
        HeaderBuildError::Allocation => pool != 0 && pool % 8 == 0 && fits
            && native.pools@[pool].blocks@.len() == 0,
        _ => false,
    }
}

/// Whether a list has no entries and room for `capacity` of them.
pub open spec fn blank(list: NativeList, capacity: usize) -> bool {
    &&& list.placed_entries().len() == 0
    &&& list.nalloc == capacity
    &&& well_linked(list)
}

/// Whether `after` lists what `before` lists and one more entry with a key and a value.
pub open spec fn one_more(
    before: NativeList,
    after: NativeList,
    key: Seq<u8>,
    value: Seq<u8>,
) -> bool {
    let entry = after.placed_entries().last().1;
    &&& after.placed_entries().len() == before.placed_entries().len() + 1
    &&& after.placed_entries().drop_last() == before.placed_entries()
    &&& entry.key.bytes() == key
    &&& entry.value.bytes() == value
    &&& entry.hash == hash_lowercase(key)
}

/// Whether the pool of a builder can hold one more entry.
pub open spec fn room_for(
    native: NativeState,
    pool: usize,
    list: NativeList,
    key: Seq<u8>,
    value: Seq<u8>,
) -> bool {
    key.len() < usize::MAX && value.len() < usize::MAX && native.pools@[pool].blocks@.len()
        >= entry_blocks(list, key)
}

/// The slots of the input builder lead to the entries of their names, and the server is the value
/// of the first Host header.
pub open spec fn input_derived(builder: HttpHeadersInBuilder) -> bool {
    let headers = builder.headers;
    &&& headers.slots.chains@.len() == 29
    &&& forall|slot: HeaderSlot| #[trigger]
        headers.slots.chain(slot) == (if input_slot(slot) {
            NativeList::named_of(headers.headers.placed_entries(), slot)
        } else {
            Seq::empty()
        })
    &&& headers.slots.chain(HeaderSlot::Host).len() == 0 ==> headers.server.len == 0
        && headers.server.data is None
    &&& headers.slots.chain(HeaderSlot::Host).len() > 0 ==> headers.server.len
        == headers.headers.at(headers.slots.chain(HeaderSlot::Host)[0]).value.len
    &&& headers.count == headers.headers.placed_entries().len()
    &&& headers.transfer_encoding@.len() == 0
    &&& headers.content_length_n == -1
    &&& headers.keep_alive_n == -1
    &&& !headers.chunked
}

/// An input builder begins blank for its request and its pool, whichever way it is asked for, and
/// changes neither the request nor any other.
pub proof fn law_input_builders_begin_blank(capacity: usize)
    ensures
        forall|
            request: &RequestRefMut,
            native: &mut NativeState,
            result: Result<HttpHeadersInBuilder, HeaderBuildError>,
        | #[trigger]
            call_ensures(HttpHeadersInBuilder::new, (request, native, capacity), result) ==> {
                &&& result is Ok <==> list_possible(*native, request.raw, capacity)
                &&& result matches Ok(builder) ==> {
                    &&& builder.request == request.raw
                    &&& builder.pool == native.requests@[request.raw].pool
                    &&& blank(builder.headers.headers, capacity)
                    &&& input_derived(builder)
                }
                &&& result matches Err(error) ==> list_impossible(
                    *native,
                    request.raw,
                    capacity,
                    error,
                )
                &&& final(native).requests == native.requests
            },
        forall|
            request: &mut RequestRefMut,
            native: &mut NativeState,
            result: Result<HttpHeadersInBuilder, HeaderBuildError>,
        | #[trigger]
            call_ensures(RequestRefMut::headers_in_builder, (request, native, capacity), result)
                ==> {
                &&& result is Ok <==> list_possible(*native, request.raw, capacity)
                &&& result matches Ok(builder) ==> {
                    &&& builder.request == request.raw
                    &&& builder.pool == native.requests@[request.raw].pool
                    &&& blank(builder.headers.headers, capacity)
                    &&& input_derived(builder)
                }
                &&& result matches Err(error) ==> list_impossible(
                    *native,
                    request.raw,
                    capacity,
                    error,
                )
                &&& final(native).requests == native.requests
                &&& *final(request) == *request
            },
{
    lemma_input_derived();
}

/// A builder that is well formed has its slots, its server and its counters in order.
proof fn lemma_input_derived()
    ensures
        forall|builder: HttpHeadersInBuilder| #[trigger] builder.wf() ==> input_derived(builder),
{
    assert forall|slot: HeaderSlot| #[trigger] slot.input() == input_slot(slot) by {}
    assert forall|builder: HttpHeadersInBuilder| #[trigger] builder.wf() implies input_derived(
        builder,
    ) by {
        let headers = builder.headers;
        assert(HeaderSlot::Host.input());
        assert(headers.slots.chain(HeaderSlot::Host) == headers.headers.named(HeaderSlot::Host));
    }
}

/// A header that is added to an input builder stands behind all others, and the slots, the server
/// and the count follow it; a refusal changes nothing.
pub proof fn law_input_builders_take_headers(key: &[u8], value: &[u8])
    ensures
        forall|
            builder: &mut HttpHeadersInBuilder,
            native: &mut NativeState,
            result: Result<(), HeaderBuildError>,
        | #[trigger]
            call_ensures(HttpHeadersInBuilder::add, (builder, native, key, value), result) ==> {
                let list = builder.headers.headers;
                &&& result is Ok <==> builder.headers.count < usize::MAX && room_for(
                    *native,
                    builder.pool,
                    list,
                    key@,
                    value@,
                )
                &&& result is Ok ==> {
                    &&& one_more(list, final(builder).headers.headers, key@, value@)
                    &&& final(builder).headers.count == builder.headers.count + 1
                    &&& input_derived(*final(builder))
                    &&& final(builder).request == builder.request
                    &&& final(builder).pool == builder.pool
                }
                &&& result matches Err(error) ==> *final(builder) == *builder && error == (
                if builder.headers.count == usize::MAX {
                    HeaderBuildError::CountOverflow
                } else {
                    HeaderBuildError::Allocation
                })
                &&& final(native).requests == native.requests
            },
{
    lemma_input_derived();
}

/// Committing gives the request the built input headers and changes nothing else of it and no other
/// request.
pub proof fn law_input_builders_replace_the_headers(builder: HttpHeadersInBuilder)
    ensures
        forall|native: &mut NativeState, result: ()| #[trigger]
            call_ensures(HttpHeadersInBuilder::commit, (builder, native), result) ==> {
                let before = native.requests@[builder.request];
                let after = final(native).requests@[builder.request];
                &&& after.headers_in == builder.headers
                &&& after == (NativeRequest { headers_in: after.headers_in, ..before })
                &&& final(native).requests@ == native.requests@.insert(builder.request, after)
                &&& final(native).pools == native.pools
            },
{
}

/// A trailer builder begins blank, takes trailers at its end, and gives the request the built
/// trailers; the request expects trailers exactly if there are some.
pub proof fn law_trailer_builders_replace_the_trailers(capacity: usize, key: &[u8], value: &[u8])
    ensures
        forall|
            request: &RequestRefMut,
            native: &mut NativeState,
            result: Result<HttpTrailersOutBuilder, HeaderBuildError>,
        | #[trigger]
            call_ensures(HttpTrailersOutBuilder::new, (request, native, capacity), result) ==> {
                &&& result is Ok <==> list_possible(*native, request.raw, capacity)
                &&& result matches Ok(builder) ==> builder.request == request.raw && builder.pool
                    == native.requests@[request.raw].pool && blank(builder.trailers, capacity)
                    && !builder.has_trailers
                &&& result matches Err(error) ==> list_impossible(
                    *native,
                    request.raw,
                    capacity,
                    error,
                )
                &&& final(native).requests == native.requests
            },
        forall|
            request: &mut RequestRefMut,
            native: &mut NativeState,
            result: Result<HttpTrailersOutBuilder, HeaderBuildError>,
        | #[trigger]
            call_ensures(RequestRefMut::trailers_out_builder, (request, native, capacity), result)
                ==> {
                &&& result is Ok <==> list_possible(*native, request.raw, capacity)
                &&& result matches Ok(builder) ==> builder.request == request.raw && builder.pool
                    == native.requests@[request.raw].pool && blank(builder.trailers, capacity)
                    && !builder.has_trailers
                &&& result matches Err(error) ==> list_impossible(
                    *native,
                    request.raw,
                    capacity,
                    error,
                )
                &&& final(native).requests == native.requests
            },
        forall|
            builder: &mut HttpTrailersOutBuilder,
            native: &mut NativeState,
            result: Result<(), HeaderBuildError>,
        | #[trigger]
            call_ensures(HttpTrailersOutBuilder::add, (builder, native, key, value), result) ==> {
                &&& result is Ok <==> room_for(
                    *native,
                    builder.pool,
                    builder.trailers,
                    key@,
                    value@,
                )
                &&& result is Ok ==> {
                    &&& one_more(builder.trailers, final(builder).trailers, key@, value@)
                    &&& final(builder).has_trailers
                    &&& final(builder).request == builder.request
                    &&& final(builder).pool == builder.pool
                }
                &&& result matches Err(error) ==> *final(builder) == *builder && error
                    == HeaderBuildError::Allocation
                &&& final(native).requests == native.requests
            },
        forall|builder: HttpTrailersOutBuilder, native: &mut NativeState, result: ()| #[trigger]
            call_ensures(HttpTrailersOutBuilder::commit, (builder, native), result) ==> {
                let before = native.requests@[builder.request];
                let after = final(native).requests@[builder.request];
                &&& after.headers_out.trailers == builder.trailers
                &&& after.expect_trailers == builder.has_trailers
                &&& after.headers_out == (NativeHeadersOut {
                    trailers: after.headers_out.trailers,
                    ..before.headers_out
                })
                &&& after == (NativeRequest {
                    headers_out: after.headers_out,
                    expect_trailers: after.expect_trailers,
                    ..before
                })
                &&& final(native).requests@ == native.requests@.insert(builder.request, after)
            },
{
}

/// Whether an output builder is blank for a request.
pub open spec fn output_blank(
    builder: HttpHeadersOutBuilder,
    native: NativeState,
    raw: usize,
    capacity: usize,
) -> bool {
    &&& builder.request == raw
    &&& builder.pool == native.requests@[raw].pool
    &&& blank(builder.headers, capacity)
    &&& builder.trailer_capacity == capacity
    &&& builder.content_type is None
    &&& builder.content_length is None
    &&& builder.trailers is None
    &&& output_derived(builder)
}

/// The slots of the output builder lead to the entries of their names.
pub open spec fn output_derived(builder: HttpHeadersOutBuilder) -> bool {
    &&& builder.slots.chains@.len() == 29
    &&& forall|slot: HeaderSlot| #[trigger]
        builder.slots.chain(slot) == (if output_slot(slot) {
            NativeList::named_of(builder.headers.placed_entries(), slot)
        } else {
            Seq::empty()
        })
    &&& forall|k: int|
        0 <= k < builder.headers.placed_entries().len() ==> !frames(
            (#[trigger] builder.headers.placed_entries()[k]).1.key.bytes(),
        )
}

/// A builder that is well formed has its slots in order and holds no header that frames the
/// message.
proof fn lemma_output_derived()
    ensures
        forall|builder: HttpHeadersOutBuilder| #[trigger] builder.wf() ==> output_derived(builder),
{
    assert forall|slot: HeaderSlot| #[trigger] slot.output() == output_slot(slot) by {}
}

/// An output builder begins blank; a clean one forgets what the request had and expects no
/// trailers, any other keeps both.
pub proof fn law_output_builders_begin_blank(capacity: usize)
    ensures
        forall|
            request: &RequestRefMut,
            native: &mut NativeState,
            result: Result<HttpHeadersOutBuilder, HeaderBuildError>,
        | #[trigger]
            call_ensures(HttpHeadersOutBuilder::new, (request, native, capacity), result) ==> {
                &&& result is Ok <==> list_possible(*native, request.raw, capacity)
                &&& result matches Ok(builder) ==> output_blank(
                    builder,
                    *native,
                    request.raw,
                    capacity,
                ) && !builder.clean && builder.expect_trailers is None
                &&& result matches Err(error) ==> list_impossible(
                    *native,
                    request.raw,
                    capacity,
                    error,
                )
                &&& final(native).requests == native.requests
            },
        forall|
            request: &mut RequestRefMut,
            native: &mut NativeState,
            result: Result<HttpHeadersOutBuilder, HeaderBuildError>,
        | #[trigger]
            call_ensures(RequestRefMut::headers_out_builder, (request, native, capacity), result)
                ==> {
                &&& result is Ok <==> list_possible(*native, request.raw, capacity)
                &&& result matches Ok(builder) ==> output_blank(
                    builder,
                    *native,
                    request.raw,
                    capacity,
                ) && !builder.clean && builder.expect_trailers is None
                &&& result matches Err(error) ==> list_impossible(
                    *native,
                    request.raw,
                    capacity,
                    error,
                )
                &&& final(native).requests == native.requests
            },
        forall|
            request: &mut RequestRefMut,
            native: &mut NativeState,
            result: Result<HttpHeadersOutBuilder, HeaderBuildError>,
        | #[trigger]
            call_ensures(
                RequestRefMut::clean_headers_out_builder,
                (request, native, capacity),
                result,
            ) ==> {
                &&& result is Ok <==> list_possible(*native, request.raw, capacity)
                &&& result matches Ok(builder) ==> output_blank(
                    builder,
                    *native,
                    request.raw,
                    capacity,
                ) && builder.clean && builder.expect_trailers == Some(false)
                &&& result matches Err(error) ==> list_impossible(
                    *native,
                    request.raw,
                    capacity,
                    error,
                )
                &&& final(native).requests == native.requests
            },
{
    lemma_output_derived();
}

/// Whether `after` has the headers, slots, lengths and trailers of `before`.
pub open spec fn output_same_but_type(
    before: HttpHeadersOutBuilder,
    after: HttpHeadersOutBuilder,
) -> bool {
    after == (HttpHeadersOutBuilder { content_type: after.content_type, ..before })
}

/// Whether a content type was taken, or refused because the pool cannot hold it.
pub open spec fn type_taken(
    native: NativeState,
    before: HttpHeadersOutBuilder,
    after: HttpHeadersOutBuilder,
    value: Seq<u8>,
    result: Result<(), HeaderBuildError>,
) -> bool {
    &&& result is Ok <==> value.len() < usize::MAX && native.pools@[before.pool].blocks@.len() > 0
    &&& result is Ok ==> output_same_but_type(before, after) && after.content_type is Some
        && after.content_type->0.len == value.len() && after.content_type->0.bytes() == value
    &&& result matches Err(error) ==> after == before && error == HeaderBuildError::Allocation
}

/// An added output header stands behind all others, but that a content type is kept apart and a
/// header that frames the message is refused.
pub proof fn law_output_builders_take_headers(key: &[u8], value: &[u8])
    ensures
        forall|
            builder: &mut HttpHeadersOutBuilder,
            native: &mut NativeState,
            result: Result<(), HeaderBuildError>,
        | #[trigger]
            call_ensures(HttpHeadersOutBuilder::add, (builder, native, key, value), result) ==> {
                let typed = same_ignoring_case(
                    key@,
                    vstd::utf8::encode_utf8(slot_title(HeaderSlot::ContentType)),
                );
                &&& frames(key@) ==> result is Err && result->Err_0
                    == HeaderBuildError::ManagedOutputFraming && *final(builder) == *builder
                    && final(native).pools@ == native.pools@
                &&& !frames(key@) && typed ==> type_taken(
                    *native,
                    *builder,
                    *final(builder),
                    value@,
                    result,
                )
                &&& !frames(key@) && !typed ==> {
                    &&& result is Ok <==> room_for(
                        *native,
                        builder.pool,
                        builder.headers,
                        key@,
                        value@,
                    )
                    &&& result is Ok ==> {
                        &&& one_more(builder.headers, final(builder).headers, key@, value@)
                        &&& output_derived(*final(builder))
                        &&& *final(builder) == (HttpHeadersOutBuilder {
                            headers: final(builder).headers,
                            slots: final(builder).slots,
                            ..*builder
                        })
                    }
                    &&& result matches Err(error) ==> *final(builder) == *builder && error
                        == HeaderBuildError::Allocation
                }
                &&& final(native).requests == native.requests
            },
        forall|
            builder: &mut HttpHeadersOutBuilder,
            native: &mut NativeState,
            result: Result<(), HeaderBuildError>,
        | #[trigger]
            call_ensures(HttpHeadersOutBuilder::set_content_type, (builder, native, value), result)
                ==> type_taken(*native, *builder, *final(builder), value@, result) && final(
                native).requests == native.requests,
        forall|
            builder: &mut HttpHeadersOutBuilder,
            length: usize,
            result: Result<(), HeaderBuildError>,
        | #[trigger]
            call_ensures(HttpHeadersOutBuilder::set_content_length, (builder, length), result)
                ==> {
                &&& result is Ok <==> length <= 0x7fff_ffff_ffff_ffff
                &&& result is Ok ==> {
                    &&& final(builder).content_length is Some
                    &&& final(builder).content_length->0 == length
                    &&& final(builder).slots.chain(HeaderSlot::ContentLength).len() == 0
                    &&& *final(builder) == (HttpHeadersOutBuilder {
                        content_length: final(builder).content_length,
                        slots: final(builder).slots,
                        ..*builder
                    })
                }
                &&& result matches Err(error) ==> *final(builder) == *builder && error
                    == HeaderBuildError::ContentLengthTooLarge
            },
{
    lemma_output_derived();
    assert(HeaderSlot::ContentType.title() == vstd::utf8::encode_utf8(
        slot_title(HeaderSlot::ContentType),
    ));
}

/// An added trailer makes the request expect trailers. The first one is added to a copy of those
/// that the request has, or to none where the builder is clean; a refusal that could not make that
/// copy changes nothing.
pub proof fn law_output_builders_take_trailers(key: &[u8], value: &[u8])
    ensures
        forall|
            builder: &mut HttpHeadersOutBuilder,
            native: &mut NativeState,
            result: Result<(), HeaderBuildError>,
        | #[trigger]
            call_ensures(HttpHeadersOutBuilder::add_trailer, (builder, native, key, value), result)
                ==> {
                let live = native.requests@[builder.request].headers_out.trailers;
                &&& result is Ok ==> {
                    &&& final(builder).expect_trailers == Some(true)
                    &&& final(builder).trailers is Some
                    &&& *final(builder) == (HttpHeadersOutBuilder {
                        trailers: final(builder).trailers,
                        expect_trailers: final(builder).expect_trailers,
                        ..*builder
                    })
                    &&& final(builder).trailers->0.placed_entries().last().1.key.bytes() == key@
                    &&& final(builder).trailers->0.placed_entries().last().1.value.bytes()
                        == value@
                    &&& final(builder).trailers->0.placed_entries().last().1.hash
                        == hash_lowercase(key@)
                }
                &&& builder.trailers matches Some(list) ==> {
                    &&& result is Ok <==> room_for(*native, builder.pool, list, key@, value@)
                    &&& result is Ok ==> one_more(
                        list,
                        final(builder).trailers->0,
                        key@,
                        value@,
                    )
                    &&& result matches Err(error) ==> *final(builder) == *builder && error
                        == HeaderBuildError::Allocation
                }
                &&& builder.trailers is None && result is Ok && !builder.clean ==> {
                    &&& final(builder).trailers->0.placed_entries().len() == live.enabled().len()
                        + 1
                    &&& forall|k: int|
                        0 <= k < live.enabled().len() ==> {
                            let copy = (
                            #[trigger] final(builder).trailers->0.placed_entries()[k]).1;
                            &&& copy.key.bytes() == live.enabled()[k].key
                            &&& copy.value.bytes() == live.enabled()[k].value
                            &&& copy.hash == live.enabled()[k].hash
                        }
                }
                &&& builder.trailers is None && result is Ok && builder.clean ==> final(
                    builder).trailers->0.placed_entries().len() == 1
                &&& result is Err ==> final(builder).expect_trailers == builder.expect_trailers
                    && final(builder).headers == builder.headers && final(builder).content_length
                    == builder.content_length && final(builder).content_type
                    == builder.content_type
                &&& final(native).requests@ == native.requests@
            },
{
    assert forall|
        builder: &mut HttpHeadersOutBuilder,
        native: &mut NativeState,
        result: Result<(), HeaderBuildError>,
    | #[trigger]
        call_ensures(HttpHeadersOutBuilder::add_trailer, (builder, native, key, value), result)
            && result is Ok implies {
        let list = final(builder).trailers->0;
        &&& list.placed_entries().last().1.key.bytes() == key@
        &&& list.placed_entries().last().1.value.bytes() == value@
        &&& list.placed_entries().last().1.hash == hash_lowercase(key@)
    } by {
        let entry = final(builder).trailers->0.placed_entries().last().1;
        assert(entry.view().key == key@);
        assert(entry.view().value == value@);
        assert(entry.view().hash == hash_lowercase(key@));
    }
    assert forall|
        builder: &mut HttpHeadersOutBuilder,
        native: &mut NativeState,
        result: Result<(), HeaderBuildError>,
    | #[trigger]
        call_ensures(HttpHeadersOutBuilder::add_trailer, (builder, native, key, value), result)
            && result is Ok && builder.trailers is None implies ({
        let live = native.requests@[builder.request].headers_out.trailers;
        let list = final(builder).trailers->0;
        &&& !builder.clean ==> list.placed_entries().len() == live.enabled().len() + 1
        &&& !builder.clean ==> forall|k: int|
            0 <= k < live.enabled().len() ==> {
                let copy = (#[trigger] list.placed_entries()[k]).1;
                &&& copy.key.bytes() == live.enabled()[k].key
                &&& copy.value.bytes() == live.enabled()[k].value
                &&& copy.hash == live.enabled()[k].hash
            }
        &&& builder.clean ==> list.placed_entries().len() == 1
    }) by {
        let live = native.requests@[builder.request].headers_out.trailers;
        let list = final(builder).trailers->0;
        let (middle, source) = choose|middle: HttpHeadersOutBuilder, source: NativeList| #[trigger]
            middle.trailers_cloned(*builder, source, live) && final(builder).trailer_added(
                middle,
                middle.trailers->0,
                key@,
                value@,
            );
        let cloned = middle.trailers->0;
        assert(list.placed_entries().drop_last() == cloned.placed_entries());
        assert(list.placed_entries().len() == cloned.placed_entries().len() + 1);
        if builder.clean {
            source.lemma_empty();
            assert(source.placed_entries().len() == 0);
            assert(source.enabled().len() == 0);
        } else {
            assert(source.placed_entries() == live.placed_entries());
            assert forall|k: int| 0 <= k < live.enabled().len() implies {
                let copy = (#[trigger] list.placed_entries()[k]).1;
                &&& copy.key.bytes() == live.enabled()[k].key
                &&& copy.value.bytes() == live.enabled()[k].value
                &&& copy.hash == live.enabled()[k].hash
            } by {
                assert(list.placed_entries()[k] == list.placed_entries().drop_last()[k]);
                let copy = cloned.placed_entries()[k].1;
                assert(copy.view().key == live.enabled()[k].key);
                assert(copy.view().value == live.enabled()[k].value);
                assert(copy.view().hash == live.enabled()[k].hash);
            }
        }
    }
}

/// Committing gives the request the built output headers with their slots and their content type;
/// a length that was set is the length of the output and ends its chunking. What was not set stays
/// as it was, but that a clean builder clears it.
pub proof fn law_output_builders_replace_the_headers(builder: HttpHeadersOutBuilder)
    ensures
        forall|native: &mut NativeState, result: ()| #[trigger]
            call_ensures(HttpHeadersOutBuilder::commit, (builder, native), result) ==> {
                let before = native.requests@[builder.request];
                let after = final(native).requests@[builder.request];
                let old_out = before.headers_out;
                let out = after.headers_out;
                &&& out.headers == builder.headers
                &&& out.slots == builder.slots
                &&& builder.content_type matches Some(value) ==> out.content_type == value
                    && out.content_type_len == value.len
                &&& builder.content_type is None ==> out.content_type.len == 0
                    && out.content_type.data is None && out.content_type_len == 0
                &&& out.charset.len == 0 && out.charset.data is None
                &&& out.content_type_lowcase is None && out.content_type_hash == 0
                &&& builder.content_length matches Some(length) ==> out.content_length_n == length
                    && !after.chunked
                &&& builder.content_length is None ==> after.chunked == before.chunked
                &&& builder.content_length is None && builder.clean ==> out.content_length_n == -1
                &&& builder.content_length is None && !builder.clean ==> out.content_length_n
                    == old_out.content_length_n
                &&& builder.clean ==> {
                    &&& out.status == 0
                    &&& out.status_line.len == 0 && out.status_line.data is None
                    &&& out.override_charset is None
                    &&& out.content_offset == 0
                    &&& out.date_time == 0
                    &&& out.last_modified_time == -1
                }
                &&& !builder.clean ==> {
                    &&& out.status == old_out.status
                    &&& out.status_line == old_out.status_line
                    &&& out.override_charset == old_out.override_charset
                    &&& out.content_offset == old_out.content_offset
                    &&& out.date_time == old_out.date_time
                    &&& out.last_modified_time == old_out.last_modified_time
                }
                &&& builder.trailers matches Some(list) ==> out.trailers == list
                &&& builder.trailers is None && !builder.clean ==> out.trailers.parts
                    == old_out.trailers.parts && out.trailers.nalloc == old_out.trailers.nalloc
                &&& builder.trailers is None && builder.clean ==> out.trailers.parts@.len() == 1
                    && out.trailers.parts@[0].nelts == 0 && out.trailers.parts@[0].entries().len()
                    == 0
                &&& builder.expect_trailers matches Some(expect) ==> after.expect_trailers == expect
                &&& builder.expect_trailers is None ==> after.expect_trailers
                    == before.expect_trailers
                &&& after == (NativeRequest {
                    headers_out: out,
                    expect_trailers: after.expect_trailers,
                    chunked: after.chunked,
                    ..before
                })
                &&& final(native).requests@ == native.requests@.insert(builder.request, after)
                &&& final(native).pools == native.pools
            },
{
}

/// A cloned list holds copies of the enabled entries, in their order, with room for more; it
/// disturbs nothing but its pool.
pub proof fn law_clones_list_what_is_enabled(source: NativeList, additional: usize)
    ensures
        forall|pool: &mut NativePool, result: Result<NativeList, HeaderBuildError>| #[trigger]
            call_ensures(clone_header_list, (pool, &source, additional), result) ==> {
                let capacity = source.enabled().len() + additional;
                &&& result is Ok ==> source.check() is Ok && pool.blocks@.len() > 0 && capacity > 0
                    && capacity * 56 <= isize::MAX
                &&& result matches Ok(list) ==> {
                    &&& list.nalloc == capacity
                    &&& list.placed_entries().len() == source.enabled().len()
                    &&& final(pool).blocks@.len() == pool.blocks@.len() - 1
                    &&& forall|k: int|
                        0 <= k < source.enabled().len() ==> {
                            let copy = (#[trigger] list.placed_entries()[k]).1;
                            &&& copy.key.bytes() == source.enabled()[k].key
                            &&& copy.value.bytes() == source.enabled()[k].value
                            &&& copy.hash == source.enabled()[k].hash
                            &&& copy.lowcase_key is None
                        }
                }
                &&& result is Err && source.check() is Ok ==> capacity > usize::MAX || capacity == 0
                    || capacity * 56 > isize::MAX || pool.blocks@.len() == 0
                &&& result matches Err(error) ==> if source.check() is Err {
                    error == HeaderBuildError::InvalidSource(source.check()->Err_0)
                } else if capacity > usize::MAX {
                    error == HeaderBuildError::CountOverflow
                } else if capacity == 0 || capacity * 56 > isize::MAX {
                    error == HeaderBuildError::InvalidCapacity
                } else {
                    error == HeaderBuildError::Allocation
                }
            },
{
    assert forall|pool: &mut NativePool, result: Result<NativeList, HeaderBuildError>| #[trigger]
        call_ensures(clone_header_list, (pool, &source, additional), result)
            && result is Ok implies forall|k: int|
        0 <= k < source.enabled().len() ==> {
            let copy = (#[trigger] result->Ok_0.placed_entries()[k]).1;
            &&& copy.key.bytes() == source.enabled()[k].key
            &&& copy.value.bytes() == source.enabled()[k].value
            &&& copy.hash == source.enabled()[k].hash
            &&& copy.lowcase_key is None
        } by {
        let list = result->Ok_0;
        assert forall|k: int| 0 <= k < source.enabled().len() implies {
            let copy = (#[trigger] list.placed_entries()[k]).1;
            &&& copy.key.bytes() == source.enabled()[k].key
            &&& copy.value.bytes() == source.enabled()[k].value
            &&& copy.hash == source.enabled()[k].hash
            &&& copy.lowcase_key is None
        } by {
            let copy = list.placed_entries()[k].1;
            assert(copy.view().key == source.enabled()[k].key);
            assert(copy.view().value == source.enabled()[k].value);
            assert(copy.view().hash == source.enabled()[k].hash);
            assert(copy.view().lowercase_key is None);
        }
    }
}

} // verus!
