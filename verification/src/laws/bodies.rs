//! Request bodies: their size, the builder that replaces one, and its framing.

use vstd::prelude::*;

use crate::buffer::{BufferError, BufferFlags, ChainError, NativeBuffer, NativeChain, PoolBuffer};
use crate::laws::headers::frames;
use crate::laws::values::{file_sound, in_memory, memory_sound};
use crate::native::{NativePool, NativeRequest, NativeState, Pointer};
use crate::request::body::{
    decimal, decimal_bytes, decimal_value, publish_request_body_framing,
    request_body_framing_candidate, ChainRef, NativeBody,
    RequestBodyBuildError, RequestBodyBuilder, RequestBodyCandidate, RequestBodyError,
    RequestBodyFramingCandidate, RequestBodyRef, RequestBodySize,
};
use crate::request::body_headers::replace_request_body_framing;
use crate::request::header_builders::HttpHeadersInBuilder;
use crate::request::header_slots::{HeaderSlot, NativeHeadersIn};
use crate::request::headers::HeaderBuildError;
use crate::request::view::{RequestError, RequestRef, RequestRefMut};

verus! {

/// The number of bytes that a sound buffer stands for.
pub open spec fn extent(buffer: NativeBuffer) -> int {
    if in_memory(buffer) {
        buffer.memory->0.last - buffer.memory->0.pos
    } else if buffer.file is Some {
        buffer.file->0.last - buffer.file->0.pos
    } else {
        0
    }
}

/// Whether a buffer can be measured.
pub open spec fn measurable(buffer: NativeBuffer) -> bool {
    &&& memory_sound(buffer)
    &&& in_memory(buffer) || file_sound(buffer)
    &&& extent(buffer) <= usize::MAX
}

/// Whether a link of a chain leads to a buffer that can be measured.
pub open spec fn sound_link(link: Pointer<NativeBuffer>) -> bool {
    link is To && measurable(link->To_0)
}

/// The bytes that a link stands for.
pub open spec fn link_extent(link: Pointer<NativeBuffer>) -> int {
    if link is To {
        extent(link->To_0)
    } else {
        0
    }
}

/// A chain is at fault exactly if one of its links is, and then as its first faulty link is; links
/// that are put behind others add their bytes to theirs.
pub proof fn law_chains_add_up(links: Seq<Pointer<NativeBuffer>>, link: Pointer<NativeBuffer>)
    ensures
        ChainRef::total(Seq::empty()) == 0,
        ChainRef::fault(Seq::empty()) is None,
        link is To && memory_sound(link->To_0) && (in_memory(link->To_0) || file_sound(link->To_0))
            ==> ChainRef::total(links.push(link)) == ChainRef::total(links) + link_extent(link),
        ChainRef::fault(links) is Some ==> ChainRef::fault(links.push(link)) == ChainRef::fault(
            links,
        ),
        ChainRef::fault(links) is None ==> (ChainRef::fault(links.push(link)) is None
            <==> sound_link(link)),
        ChainRef::fault(links) is None && link is Null ==> ChainRef::fault(links.push(link)) == Some(
            ChainError::NullBuffer,
        ),
        ChainRef::fault(links) is None && link is Misaligned ==> ChainRef::fault(links.push(link))
            == Some(ChainError::MisalignedBuffer),
        ChainRef::fault(links) is None && link is To && !sound_link(link) ==> ChainRef::fault(
            links.push(link),
        ) is Some && ChainRef::fault(links.push(link))->0 is Buffer,
{
    assert(links.push(link).drop_last() =~= links);
}

/// A chain view has the links that nginx has, in their order.
pub proof fn law_chain_views_show_the_links(chain: Pointer<NativeChain>, view: ChainRef)
    ensures
        forall|result: Result<ChainRef, ChainError>| #[trigger]
            call_ensures(ChainRef::from_raw, (&chain,), result) ==> {
                &&& result is Err <==> chain is Misaligned
                &&& result matches Err(error) ==> error == ChainError::MisalignedLink
                &&& chain is Null ==> result->Ok_0.links().len() == 0
                &&& chain is To ==> result->Ok_0.links() == chain->To_0@
            },
        forall|result: usize| #[trigger]
            call_ensures(ChainRef::len, (&view,), result) ==> result == view.links().len(),
        forall|index: usize, result: Result<&NativeBuffer, ChainError>| #[trigger]
            call_ensures(ChainRef::get, (&view, index), result) ==> {
                let link = view.links()[index as int];
                &&& result is Ok <==> link is To
                &&& result matches Ok(buffer) ==> *buffer == link->To_0
                &&& link is Null ==> result->Err_0 == ChainError::NullBuffer
                &&& link is Misaligned ==> result->Err_0 == ChainError::MisalignedBuffer
            },
{
}

/// A body has the bytes of its chain, capped at the largest number and marked so; no chain has none.
pub proof fn law_bodies_have_the_size_of_their_chain(body: NativeBody)
    ensures
        forall|result: Result<RequestBodySize, RequestBodyError>| #[trigger]
            call_ensures(RequestBodyRef::size, (&RequestBodyRef { raw: &body },), result) ==> {
                let links = if body.bufs is To {
                    body.bufs->To_0@
                } else {
                    Seq::empty()
                };
                let total = ChainRef::total(links);
                &&& result is Ok <==> body.bufs !is Misaligned && ChainRef::fault(links) is None
                &&& result matches Ok(size) ==> {
                    &&& size.saturated <==> total > usize::MAX
                    &&& !size.saturated ==> size.bytes == total
                    &&& size.saturated ==> size.bytes == usize::MAX
                }
                &&& body.bufs is Misaligned ==> result->Err_0 == RequestBodyError::Chain(
                    ChainError::MisalignedLink,
                )
                &&& body.bufs !is Misaligned && result is Err ==> result->Err_0
                    == RequestBodyError::Chain(ChainRef::fault(links)->0)
            },
        forall|result: Result<ChainRef, RequestBodyError>| #[trigger]
            call_ensures(RequestBodyRef::chain, (&RequestBodyRef { raw: &body },), result) ==> {
                &&& result is Err <==> body.bufs is Misaligned
                &&& result matches Err(error) ==> error == RequestBodyError::Chain(
                    ChainError::MisalignedLink,
                )
                &&& body.bufs is Null ==> result->Ok_0.links().len() == 0
                &&& body.bufs is To ==> result->Ok_0.links() == body.bufs->To_0@
            },
        forall|size: RequestBodySize, result: usize| #[trigger]
            call_ensures(RequestBodySize::bytes, (size,), result) ==> result == size.bytes,
        forall|size: RequestBodySize, result: bool| #[trigger]
            call_ensures(RequestBodySize::is_saturated, (size,), result) ==> result
                == size.saturated,
{
}

/// The body of a request is the one that the request has, whichever view asks.
pub proof fn law_requests_show_their_own_body(
    native: NativeState,
    view: RequestRef,
    exclusive: RequestRefMut,
    body: Pointer<NativeBody>,
)
    ensures
        forall|result: Result<Option<RequestBodyRef>, RequestBodyError>| #[trigger]
            call_ensures(RequestRef::request_body, (&view, &native), result) ==> body_shown(
                native.requests@[view.raw].request_body,
                result,
            ),
        forall|result: Result<Option<RequestBodyRef>, RequestBodyError>| #[trigger]
            call_ensures(RequestRefMut::request_body, (&exclusive, &native), result) ==> body_shown(
                native.requests@[exclusive.raw].request_body,
                result,
            ),
        forall|result: Result<Option<RequestBodyRef>, RequestBodyError>| #[trigger]
            call_ensures(RequestBodyRef::from_raw, (&body,), result) ==> body_shown(body, result),
{
}

/// Whether `result` is a body, that there is none, or that it cannot be read.
pub open spec fn body_shown(
    body: Pointer<NativeBody>,
    result: Result<Option<RequestBodyRef>, RequestBodyError>,
) -> bool {
    &&& body is Null <==> result is Ok && result->Ok_0 is None
    &&& body is Misaligned <==> result is Err
    &&& result matches Err(error) ==> error == RequestBodyError::MisalignedBody
    &&& body is To ==> *result->Ok_0->0.raw == body->To_0
}

/// Whether a body under construction grew by one buffer behind all others.
pub open spec fn grew(
    before: RequestBodyCandidate,
    after: RequestBodyCandidate,
    bytes: int,
) -> bool {
    &&& after.pool == before.pool
    &&& after.chain.buffers@.len() == before.chain.buffers@.len() + 1
    &&& after.chain.buffers@.drop_last() == before.chain.buffers@
    &&& after.length == before.length + bytes
}

/// Whether copied bytes were put behind the others, or refused.
pub open spec fn copy_taken(
    blocks: nat,
    before: RequestBodyCandidate,
    after: RequestBodyCandidate,
    bytes: Seq<u8>,
    result: Result<(), RequestBodyBuildError>,
) -> bool {
    let buffer = after.chain.buffers@.last();
    &&& bytes.len() == 0 ==> result is Ok && after == before
    &&& bytes.len() > 0 ==> (result is Ok <==> blocks >= 3 && before.length + bytes.len()
        <= usize::MAX)
    &&& bytes.len() > 0 && result is Ok ==> {
        &&& grew(before, after, bytes.len() as int)
        &&& in_memory(buffer) && memory_sound(buffer)
        &&& buffer.memory->0.bytes@.subrange(
            buffer.memory->0.pos as int,
            buffer.memory->0.last as int,
        ) == bytes
        &&& buffer.file is None
        &&& !buffer.flags.flush && !buffer.flags.sync && !buffer.flags.last_buf
            && !buffer.flags.last_in_chain
    }
    &&& result matches Err(error) ==> {
        &&& after == before
        &&& error == RequestBodyBuildError::Buffer(BufferError::Allocation) <==> blocks < 2
        &&& error == RequestBodyBuildError::LengthOverflow <==> blocks >= 2 && before.length
            + bytes.len() > usize::MAX
        &&& error == RequestBodyBuildError::Chain(ChainError::Allocation) <==> blocks == 2
            && before.length + bytes.len() <= usize::MAX
    }
}

/// Whether a buffer was put behind the others, or refused.
pub open spec fn buffer_taken(
    blocks: nat,
    before: RequestBodyCandidate,
    after: RequestBodyCandidate,
    buffer: PoolBuffer,
    result: Result<(), RequestBodyBuildError>,
) -> bool {
    let bytes = extent(buffer.buffer);
    let fits = before.length + bytes <= usize::MAX;
    &&& result is Ok <==> measurable(buffer.buffer) && fits && buffer.pool == before.pool && blocks
        > 0
    &&& result is Ok ==> grew(before, after, bytes) && after.chain.buffers@.last() == buffer.buffer
    &&& result matches Err(error) ==> {
        &&& after == before
        &&& error is Buffer <==> !measurable(buffer.buffer)
        &&& error == RequestBodyBuildError::LengthOverflow <==> measurable(buffer.buffer) && !fits
        &&& error == RequestBodyBuildError::Chain(ChainError::Buffer(BufferError::ForeignPool))
            <==> measurable(buffer.buffer) && fits && buffer.pool != before.pool
        &&& error == RequestBodyBuildError::Chain(ChainError::Allocation) <==> measurable(
            buffer.buffer,
        ) && fits && buffer.pool == before.pool
    }
}

/// Whether a buffer without bytes was put behind the others, or refused.
pub open spec fn control_taken(
    blocks: nat,
    before: RequestBodyCandidate,
    after: RequestBodyCandidate,
    flags: BufferFlags,
    result: Result<(), RequestBodyBuildError>,
) -> bool {
    &&& result is Ok <==> blocks >= 2
    &&& result is Ok ==> grew(before, after, 0) && after.chain.buffers@.last() == (NativeBuffer {
        memory: None,
        file: None,
        flags,
    })
    &&& result matches Err(error) ==> {
        &&& after == before
        &&& error == RequestBodyBuildError::Buffer(BufferError::Allocation) <==> blocks == 0
        &&& error == RequestBodyBuildError::Chain(ChainError::Allocation) <==> blocks == 1
    }
}

/// A body under construction begins empty; what is put in comes behind what is there and adds its
/// bytes to the length. A refusal changes nothing.
pub proof fn law_candidates_grow_at_their_end(
    pool: usize,
    bytes: &[u8],
    buffer: PoolBuffer,
    flags: BufferFlags,
)
    ensures
        forall|result: RequestBodyCandidate| #[trigger]
            call_ensures(RequestBodyCandidate::new, (pool,), result) ==> result.pool == pool
                && result.chain.buffers@.len() == 0 && result.length == 0,
        forall|
            body: &mut RequestBodyCandidate,
            native: &mut NativeState,
            result: Result<(), RequestBodyBuildError>,
        | #[trigger]
            call_ensures(RequestBodyCandidate::append_copy, (body, native, bytes), result)
                ==> copy_taken(
                native.pools@[body.pool].blocks@.len(),
                *body,
                *final(body),
                bytes@,
                result,
            ) && final(native).requests == native.requests,
        forall|
            body: &mut RequestBodyCandidate,
            native: &mut NativeState,
            result: Result<(), RequestBodyBuildError>,
        | #[trigger]
            call_ensures(RequestBodyCandidate::append, (body, native, buffer), result)
                ==> buffer_taken(
                native.pools@[body.pool].blocks@.len(),
                *body,
                *final(body),
                buffer,
                result,
            ) && final(native).requests == native.requests,
        forall|
            body: &mut RequestBodyCandidate,
            native: &mut NativeState,
            result: Result<(), RequestBodyBuildError>,
        | #[trigger]
            call_ensures(RequestBodyCandidate::append_control, (body, native, flags), result)
                ==> control_taken(
                native.pools@[body.pool].blocks@.len(),
                *body,
                *final(body),
                flags,
                result,
            ) && final(native).requests == native.requests,
{
    assert forall|
        body: &mut RequestBodyCandidate,
        native: &mut NativeState,
        result: Result<(), RequestBodyBuildError>,
    | #[trigger]
        call_ensures(RequestBodyCandidate::append_control, (body, native, flags), result)
            && result is Ok implies final(body).chain.buffers@.drop_last()
        == body.chain.buffers@ by {
        assert(final(body).chain.buffers@.drop_last() =~= body.chain.buffers@);
    }
    assert forall|
        body: &mut RequestBodyCandidate,
        native: &mut NativeState,
        result: Result<(), RequestBodyBuildError>,
    | #[trigger]
        call_ensures(RequestBodyCandidate::append, (body, native, buffer), result)
            && result is Ok implies final(body).chain.buffers@.drop_last()
        == body.chain.buffers@ by {
        assert(final(body).chain.buffers@.drop_last() =~= body.chain.buffers@);
    }
}

/// A body builder belongs to its request and the pool of that request, and grows like any body
/// under construction.
pub proof fn law_body_builders_grow_at_their_end(
    bytes: &[u8],
    buffer: PoolBuffer,
    flags: BufferFlags,
    state: NativeState,
)
    ensures
        forall|request: &RequestRefMut, result: Result<RequestBodyBuilder, RequestBodyBuildError>|
         #[trigger]
            call_ensures(RequestBodyBuilder::new, (request, &state), result) ==> builder_begun(
                state,
                request.raw,
                result,
            ),
        forall|
            request: &mut RequestRefMut,
            result: Result<RequestBodyBuilder, RequestBodyBuildError>,
        | #[trigger]
            call_ensures(RequestRefMut::request_body_builder, (request, &state), result)
                ==> builder_begun(state, request.raw, result) && *final(request) == *request,
        forall|
            builder: &mut RequestBodyBuilder,
            native: &mut NativeState,
            result: Result<(), RequestBodyBuildError>,
        | #[trigger]
            call_ensures(RequestBodyBuilder::append_copy, (builder, native, bytes), result)
                ==> copy_taken(
                native.pools@[builder.body.pool].blocks@.len(),
                builder.body,
                final(builder).body,
                bytes@,
                result,
            ) && final(builder).request == builder.request && final(native).requests
                == native.requests,
        forall|
            builder: &mut RequestBodyBuilder,
            native: &mut NativeState,
            result: Result<(), RequestBodyBuildError>,
        | #[trigger]
            call_ensures(RequestBodyBuilder::append, (builder, native, buffer), result)
                ==> buffer_taken(
                native.pools@[builder.body.pool].blocks@.len(),
                builder.body,
                final(builder).body,
                buffer,
                result,
            ) && final(builder).request == builder.request && final(native).requests
                == native.requests,
        forall|
            builder: &mut RequestBodyBuilder,
            native: &mut NativeState,
            result: Result<(), RequestBodyBuildError>,
        | #[trigger]
            call_ensures(RequestBodyBuilder::append_control, (builder, native, flags), result)
                ==> control_taken(
                native.pools@[builder.body.pool].blocks@.len(),
                builder.body,
                final(builder).body,
                flags,
                result,
            ) && final(builder).request == builder.request && final(native).requests
                == native.requests,
{
    assert forall|
        builder: &mut RequestBodyBuilder,
        native: &mut NativeState,
        result: Result<(), RequestBodyBuildError>,
    | #[trigger]
        call_ensures(RequestBodyBuilder::append_control, (builder, native, flags), result)
            && result is Ok implies final(builder).body.chain.buffers@.drop_last()
        == builder.body.chain.buffers@ by {
        assert(final(builder).body.chain.buffers@.drop_last() =~= builder.body.chain.buffers@);
    }
    assert forall|
        builder: &mut RequestBodyBuilder,
        native: &mut NativeState,
        result: Result<(), RequestBodyBuildError>,
    | #[trigger]
        call_ensures(RequestBodyBuilder::append, (builder, native, buffer), result)
            && result is Ok implies final(builder).body.chain.buffers@.drop_last()
        == builder.body.chain.buffers@ by {
        assert(final(builder).body.chain.buffers@.drop_last() =~= builder.body.chain.buffers@);
    }
}

/// Whether a body builder begins empty for a request, or cannot because there is no pool.
pub open spec fn builder_begun(
    native: NativeState,
    raw: usize,
    result: Result<RequestBodyBuilder, RequestBodyBuildError>,
) -> bool {
    let pool = native.requests@[raw].pool;
    &&& result is Ok <==> pool != 0 && pool % 8 == 0
    &&& result matches Ok(builder) ==> {
        &&& builder.request == raw
        &&& builder.body.pool == pool
        &&& builder.body.chain.pool == pool
        &&& builder.body.chain.buffers@.len() == 0
        &&& builder.body.length == 0
    }
    &&& result matches Err(error) ==> error is Request
}

/// The length of a well-formed body under construction is the number of bytes of its buffers.
pub proof fn law_lengths_count_the_bytes(buffers: Seq<NativeBuffer>, buffer: NativeBuffer)
    ensures
        RequestBodyCandidate::total(Seq::empty()) == 0,
        memory_sound(buffer) && (in_memory(buffer) || file_sound(buffer))
            ==> RequestBodyCandidate::total(buffers.push(buffer)) == RequestBodyCandidate::total(
            buffers,
        ) + extent(buffer),
{
    assert(buffers.push(buffer).drop_last() =~= buffers);
}

/// Whether a native body links exactly the buffers of a body under construction, in their order.
pub open spec fn links_buffers(body: NativeBody, buffers: Seq<NativeBuffer>) -> bool {
    &&& !body.temp_file
    &&& body.bufs is Null <==> buffers.len() == 0
    &&& body.bufs is To <==> buffers.len() > 0
    &&& body.bufs is To ==> body.bufs->To_0@.len() == buffers.len()
    &&& forall|i: int|
        0 <= i < buffers.len() ==> #[trigger] body.bufs->To_0@[i] == Pointer::To(buffers[i])
}

/// A finished body links the buffers that were put in, in their order, and takes one block.
pub proof fn law_finished_bodies_link_their_buffers(candidate: RequestBodyCandidate)
    ensures
        forall|pool: &mut NativePool, result: Result<NativeBody, RequestBodyBuildError>| #[trigger]
            call_ensures(RequestBodyCandidate::into_raw, (candidate, pool), result) ==> {
                &&& result is Ok <==> pool.blocks@.len() > 0
                &&& result matches Ok(body) ==> links_buffers(body, candidate.chain.buffers@)
                &&& result matches Err(error) ==> error == RequestBodyBuildError::Allocation
            },
        forall|body: NativeBody| #[trigger]
            candidate.is_body(body) ==> links_buffers(body, candidate.chain.buffers@),
{
    assert forall|body: NativeBody| #[trigger] candidate.is_body(body) implies links_buffers(
        body,
        candidate.chain.buffers@,
    ) by {
        let buffers = candidate.chain.buffers@;
        let links = body.links()->Ok_0;
        assert(links == RequestBodyCandidate::linked(buffers));
        assert(links.len() == buffers.len());
        assert forall|i: int| 0 <= i < buffers.len() implies #[trigger] body.bufs->To_0@[i]
            == Pointer::To(buffers[i]) by {
            assert(links[i] == Pointer::To(buffers[i]));
        }
    }
    assert forall|pool: &mut NativePool, result: Result<NativeBody, RequestBodyBuildError>|
     #[trigger]
        call_ensures(RequestBodyCandidate::into_raw, (candidate, pool), result)
            && result is Ok implies links_buffers(result->Ok_0, candidate.chain.buffers@) by {
        assert(candidate.is_body(result->Ok_0));
    }
}

/// The decimal form of a length is made of digits, reads back as that length and begins with no
/// idle zero.
pub proof fn law_lengths_read_back(value: usize)
    ensures
        forall|result: Vec<u8>| #[trigger]
            call_ensures(decimal_bytes, (value,), result) ==> {
                &&& result@ == decimal(value as nat)
                &&& decimal_value(result@) == value
                &&& result@.len() > 0
                &&& result@.len() > 1 ==> result@[0] != 48
                &&& forall|i: int| 0 <= i < result@.len() ==> 48 <= #[trigger] result@[i] <= 57
            },
{
    crate::request::body::law_decimal_round_trip(value as nat);
    lemma_no_idle_zero(value as nat);
}

/// A number other than 0 has no zero at its front.
proof fn lemma_no_idle_zero(value: nat)
    ensures
        value > 0 ==> decimal(value)[0] != 48,
        decimal(value).len() > 0,
        value < 10 ==> decimal(value).len() == 1,
    decreases value,
{
    if value >= 10 {
        lemma_no_idle_zero(value / 10);
    }
}

/// Decimal digits are read from the left: each further digit multiplies by ten.
pub proof fn law_digits_weigh_ten(digits: Seq<u8>, digit: u8)
    requires
        48 <= digit <= 57,
    ensures
        decimal_value(Seq::empty()) == 0,
        decimal_value(digits.push(digit)) == 10 * decimal_value(digits) + digit - 48,
{
    assert(digits.push(digit).drop_last() =~= digits);
}

/// Whether input headers were framed anew for a body of `length` bytes: every entry is kept in its
/// place, those that framed the message are disabled, and one Content-Length stands behind them.
pub open spec fn framed_for(
    before: NativeHeadersIn,
    after: NativeHeadersIn,
    length: usize,
) -> bool {
    let earlier = before.headers.placed_entries();
    let entries = after.headers.placed_entries();
    let last = entries.last();
    &&& entries.len() == earlier.len() + 1
    &&& forall|k: int|
        0 <= k < earlier.len() ==> {
            let entry = #[trigger] entries[k];
            &&& entry.0 == earlier[k].0
            &&& entry.1.key == earlier[k].1.key
            &&& entry.1.value == earlier[k].1.value
            &&& frames(earlier[k].1.key.bytes()) ==> entry.1.hash == 0
            &&& !frames(earlier[k].1.key.bytes()) ==> entry.1.hash == earlier[k].1.hash
        }
    &&& last.1.key.bytes() == vstd::utf8::encode_utf8("Content-Length"@)
    &&& decimal_value(last.1.value.bytes()) == length
    &&& last.1.value.bytes() == decimal(length as nat)
    &&& last.1.hash != 0
    &&& after.slots.chain(HeaderSlot::ContentLength) == seq![last.0]
    &&& forall|slot: HeaderSlot|
        slot != HeaderSlot::ContentLength ==> #[trigger] after.slots.chain(slot)
            == before.slots.chain(slot)
    &&& after.transfer_encoding@.len() == 0
    &&& after.content_length_n == length
    &&& after.count == before.count + 1
    &&& !after.chunked
    &&& after.server == before.server
    &&& after.keep_alive_n == before.keep_alive_n
}

/// Framed headers hold one enabled framing header, the length of the body.
pub proof fn law_framing_is_the_length_alone(
    before: NativeHeadersIn,
    after: NativeHeadersIn,
    length: usize,
)
    requires
        after.framed(before, length),
    ensures
        framed_for(before, after, length),
{
    let entries = after.headers.placed_entries();
    let last = entries.last().1;
    crate::request::body::law_decimal_round_trip(length as nat);
    crate::request::header_list::lemma_content_length_is_enabled();
    assert(last.view().key == vstd::utf8::encode_utf8("Content-Length"@));
    assert(last.view().value == decimal(length as nat));
}

/// The framing header of a body is its length in decimal, counted as one more header; it is made
/// exactly if the headers can be read, the count can grow and the length fits.
pub proof fn law_framing_headers_carry_the_length(headers: NativeHeadersIn, length: usize)
    ensures
        forall|
            pool: &mut NativePool,
            result: Result<RequestBodyFramingCandidate, RequestBodyBuildError>,
        | #[trigger]
            call_ensures(request_body_framing_candidate, (&headers, pool, length), result) ==> {
                let fits = headers.headers.check() is Ok && headers.count < usize::MAX && length
                    <= 0x7fff_ffff_ffff_ffff;
                &&& result is Ok <==> fits && pool.blocks@.len() >= 3
                &&& result matches Ok(candidate) ==> {
                    &&& candidate.content_length_n == length
                    &&& candidate.count == headers.count + 1
                    &&& candidate.content_length.key.bytes() == vstd::utf8::encode_utf8(
                        "Content-Length"@,
                    )
                    &&& decimal_value(candidate.content_length.value.bytes()) == length
                    &&& candidate.content_length.hash != 0
                }
                &&& result matches Err(error) ==> framing_error(headers, length, error, fits)
            },
        forall|pool: &mut NativePool, result: Result<NativeHeadersIn, RequestBodyBuildError>|
         #[trigger]
            call_ensures(replace_request_body_framing, (headers, pool, length), result) ==> {
                let fits = headers.headers.check() is Ok && headers.count < usize::MAX && length
                    <= 0x7fff_ffff_ffff_ffff;
                let needed: nat = if headers.headers.parts@.last().nelts == headers.headers.nalloc {
                    5
                } else {
                    3
                };
                &&& result is Ok <==> fits && pool.blocks@.len() >= needed
                &&& result matches Ok(after) ==> framed_for(headers, after, length)
                &&& result is Err && fits ==> result->Err_0 == RequestBodyBuildError::HeaderBuild(
                    HeaderBuildError::Allocation,
                )
                &&& length > 0x7fff_ffff_ffff_ffff ==> result is Err && result->Err_0
                    == RequestBodyBuildError::ContentLengthTooLarge
            },
{
    crate::request::body::law_decimal_round_trip(length as nat);
    crate::request::header_list::lemma_content_length_is_enabled();
    assert forall|
        pool: &mut NativePool,
        result: Result<RequestBodyFramingCandidate, RequestBodyBuildError>,
    | #[trigger]
        call_ensures(request_body_framing_candidate, (&headers, pool, length), result)
            && result is Ok implies {
        let header = result->Ok_0.content_length;
        &&& header.key.bytes() == vstd::utf8::encode_utf8("Content-Length"@)
        &&& decimal_value(header.value.bytes()) == length
        &&& header.hash != 0
    } by {
        let header = result->Ok_0.content_length;
        assert(header.view().key == vstd::utf8::encode_utf8("Content-Length"@));
        assert(header.view().value == decimal(length as nat));
        assert(header.view().hash != 0);
    }
    assert forall|pool: &mut NativePool, result: Result<NativeHeadersIn, RequestBodyBuildError>|
     #[trigger]
        call_ensures(replace_request_body_framing, (headers, pool, length), result)
            && result is Ok implies framed_for(headers, result->Ok_0, length) by {
        law_framing_is_the_length_alone(headers, result->Ok_0, length);
    }
}

/// Whether `error` says what keeps headers from being framed.
pub open spec fn framing_error(
    headers: NativeHeadersIn,
    length: usize,
    error: RequestBodyBuildError,
    fits: bool,
) -> bool {
    match error {
        RequestBodyBuildError::HeaderList(_) => headers.headers.check() is Err,
        RequestBodyBuildError::ContentLengthTooLarge => headers.headers.check() is Ok && length
            > 0x7fff_ffff_ffff_ffff,
        RequestBodyBuildError::HeaderBuild(HeaderBuildError::CountOverflow) => headers.count
            == usize::MAX,
        RequestBodyBuildError::HeaderBuild(HeaderBuildError::Allocation) => fits,
        _ => false,
    }
}

/// Committing a built body gives the request that body, framed by its length; a refusal leaves every
/// request as it was.
pub proof fn law_committed_bodies_are_framed(builder: RequestBodyBuilder)
    ensures
        forall|native: &mut NativeState, result: Result<(), RequestBodyBuildError>| #[trigger]
            call_ensures(RequestBodyBuilder::commit, (builder, native), result) ==> {
                let before = native.requests@[builder.request];
                let after = final(native).requests@[builder.request];
                let headers = before.headers_in;
                let fits = headers.headers.check() is Ok && headers.count < usize::MAX
                    && builder.body.length <= 0x7fff_ffff_ffff_ffff;
                let needed: nat = if headers.headers.parts@.last().nelts == headers.headers.nalloc {
                    6
                } else {
                    4
                };
                &&& result is Ok <==> fits && native.pools@[builder.body.pool].blocks@.len()
                    >= needed
                &&& result is Ok ==> {
                    &&& after.request_body is To
                    &&& links_buffers(after.request_body->To_0, builder.body.chain.buffers@)
                    &&& framed_for(headers, after.headers_in, builder.body.length)
                    &&& after == (NativeRequest {
                        headers_in: after.headers_in,
                        request_body: after.request_body,
                        ..before
                    })
                    &&& final(native).requests@ == native.requests@.insert(builder.request, after)
                }
                &&& result is Err ==> final(native).requests@ == native.requests@
                &&& result matches Err(error) ==> if fits {
                    error == (if native.pools@[builder.body.pool].blocks@.len() == 3 {
                        RequestBodyBuildError::Allocation
                    } else {
                        RequestBodyBuildError::HeaderBuild(HeaderBuildError::Allocation)
                    })
                } else {
                    framing_error(headers, builder.body.length, error, fits)
                }
            },
{
    law_finished_bodies_link_their_buffers(builder.body);
    assert forall|native: &mut NativeState, result: Result<(), RequestBodyBuildError>| #[trigger]
        call_ensures(RequestBodyBuilder::commit, (builder, native), result)
            && result is Ok implies framed_for(
        native.requests@[builder.request].headers_in,
        final(native).requests@[builder.request].headers_in,
        builder.body.length,
    ) by {
        law_framing_is_the_length_alone(
            native.requests@[builder.request].headers_in,
            final(native).requests@[builder.request].headers_in,
            builder.body.length,
        );
    }
}

/// Clearing the body of a request leaves it none, framed by a length of 0.
pub proof fn law_cleared_bodies_are_framed_as_empty()
    ensures
        forall|
            request: &mut RequestRefMut,
            native: &mut NativeState,
            result: Result<(), RequestBodyBuildError>,
        | #[trigger]
            call_ensures(RequestRefMut::clear_request_body, (request, native), result) ==> {
                let before = native.requests@[request.raw];
                let after = final(native).requests@[request.raw];
                &&& result is Ok ==> {
                    &&& after.request_body is Null
                    &&& framed_for(before.headers_in, after.headers_in, 0)
                    &&& after == (NativeRequest {
                        headers_in: after.headers_in,
                        request_body: after.request_body,
                        ..before
                    })
                    &&& final(native).requests@ == native.requests@.insert(request.raw, after)
                }
                &&& result is Err ==> final(native).requests@ == native.requests@
                &&& result is Ok ==> before.pool != 0 && before.pool % 8 == 0
                    && before.headers_in.headers.check() is Ok && before.headers_in.count
                    < usize::MAX
                &&& result is Err && before.pool != 0 && before.pool % 8 == 0
                    && before.headers_in.headers.check() is Ok && before.headers_in.count
                    < usize::MAX ==> native.pools@[before.pool].blocks@.len() < 5 && result->Err_0
                    == RequestBodyBuildError::HeaderBuild(HeaderBuildError::Allocation)
                &&& *final(request) == *request
            },
{
    assert forall|
        request: &mut RequestRefMut,
        native: &mut NativeState,
        result: Result<(), RequestBodyBuildError>,
    | #[trigger]
        call_ensures(RequestRefMut::clear_request_body, (request, native), result)
            && result is Ok implies framed_for(
        native.requests@[request.raw].headers_in,
        final(native).requests@[request.raw].headers_in,
        0,
    ) by {
        law_framing_is_the_length_alone(
            native.requests@[request.raw].headers_in,
            final(native).requests@[request.raw].headers_in,
            0,
        );
    }
}

/// Whether headers are committed exactly if their framing fits and the pool has the blocks for it,
/// and are refused otherwise: for their length, for their list, for their count, and last for the
/// blocks of the framing and of the body.
pub open spec fn replaced_or_refused(
    builder: HttpHeadersInBuilder,
    blocks: nat,
    length: usize,
    body: nat,
    result: Result<(), RequestBodyBuildError>,
) -> bool {
    let headers = builder.headers;
    let framing: nat = if headers.headers.parts@.last().nelts == headers.headers.nalloc {
        5
    } else {
        3
    };
    if length > 0x7fff_ffff_ffff_ffff {
        result == Err::<(), RequestBodyBuildError>(RequestBodyBuildError::ContentLengthTooLarge)
    } else if headers.headers.check() is Err {
        result == Err::<(), RequestBodyBuildError>(
            RequestBodyBuildError::HeaderList(headers.headers.check()->Err_0),
        )
    } else if headers.count == usize::MAX {
        result == Err::<(), RequestBodyBuildError>(
            RequestBodyBuildError::HeaderBuild(HeaderBuildError::CountOverflow),
        )
    } else if blocks < framing {
        result == Err::<(), RequestBodyBuildError>(
            RequestBodyBuildError::HeaderBuild(HeaderBuildError::Allocation),
        )
    } else if blocks < framing + body {
        result == Err::<(), RequestBodyBuildError>(RequestBodyBuildError::Allocation)
    } else {
        result is Ok
    }
}

/// Built headers that are committed together with a body, or without one, are framed by the length
/// of that body; the body has to be of the same pool.
pub proof fn law_replaced_headers_are_framed(
    builder: HttpHeadersInBuilder,
    body: RequestBodyCandidate,
)
    ensures
        forall|result: Result<RequestBodyCandidate, RequestBodyBuildError>| #[trigger]
            call_ensures(HttpHeadersInBuilder::request_body_candidate, (&builder,), result) ==> {
                &&& result is Ok <==> builder.pool != 0 && builder.pool % 8 == 0
                &&& result matches Ok(candidate) ==> candidate.pool == builder.pool
                    && candidate.chain.buffers@.len() == 0 && candidate.length == 0
                &&& result matches Err(error) ==> error == RequestBodyBuildError::Request(
                    RequestError::MisalignedPool,
                )
            },
        forall|native: &mut NativeState, result: Result<(), RequestBodyBuildError>| #[trigger]
            call_ensures(HttpHeadersInBuilder::commit_with_body, (builder, native, body), result)
                ==> {
                let after = final(native).requests@[builder.request];
                &&& builder.pool != body.pool ==> result is Err && result->Err_0
                    == RequestBodyBuildError::Buffer(BufferError::ForeignPool)
                &&& result is Ok ==> {
                    &&& after.request_body is To
                    &&& links_buffers(after.request_body->To_0, body.chain.buffers@)
                    &&& framed_for(builder.headers, after.headers_in, body.length)
                    &&& after == (NativeRequest {
                        headers_in: after.headers_in,
                        request_body: after.request_body,
                        ..native.requests@[builder.request]
                    })
                    &&& final(native).requests@ == native.requests@.insert(builder.request, after)
                }
                &&& result is Err ==> final(native).requests@ == native.requests@
                &&& builder.pool == body.pool ==> replaced_or_refused(
                    builder,
                    native.pools@[builder.pool].blocks@.len(),
                    body.length,
                    1,
                    result,
                )
            },
        forall|native: &mut NativeState, result: Result<(), RequestBodyBuildError>| #[trigger]
            call_ensures(HttpHeadersInBuilder::commit_without_body, (builder, native), result)
                ==> {
                let after = final(native).requests@[builder.request];
                &&& result is Ok ==> {
                    &&& after.request_body is Null
                    &&& framed_for(builder.headers, after.headers_in, 0)
                    &&& after == (NativeRequest {
                        headers_in: after.headers_in,
                        request_body: after.request_body,
                        ..native.requests@[builder.request]
                    })
                    &&& final(native).requests@ == native.requests@.insert(builder.request, after)
                }
                &&& result is Err ==> final(native).requests@ == native.requests@
                &&& replaced_or_refused(
                    builder,
                    native.pools@[builder.pool].blocks@.len(),
                    0,
                    0,
                    result,
                )
            },
{
    law_finished_bodies_link_their_buffers(body);
    assert forall|native: &mut NativeState, result: Result<(), RequestBodyBuildError>| #[trigger]
        call_ensures(HttpHeadersInBuilder::commit_with_body, (builder, native, body), result)
            && result is Ok implies framed_for(
        builder.headers,
        final(native).requests@[builder.request].headers_in,
        body.length,
    ) by {
        law_framing_is_the_length_alone(
            builder.headers,
            final(native).requests@[builder.request].headers_in,
            body.length,
        );
    }
    assert forall|native: &mut NativeState, result: Result<(), RequestBodyBuildError>| #[trigger]
        call_ensures(HttpHeadersInBuilder::commit_without_body, (builder, native), result)
            && result is Ok implies framed_for(
        builder.headers,
        final(native).requests@[builder.request].headers_in,
        0,
    ) by {
        law_framing_is_the_length_alone(
            builder.headers,
            final(native).requests@[builder.request].headers_in,
            0,
        );
    }
}

/// A body is published together with its framing, or not at all: if the pool has the blocks that
/// one more header takes, the request has the given body and its length as only framing header, and
/// nothing else of the request changes.
pub proof fn law_bodies_are_published_with_their_framing(
    candidate: RequestBodyFramingCandidate,
    body: Pointer<NativeBody>,
)
    ensures
        forall|
            request: &mut NativeRequest,
            pool: &mut NativePool,
            result: Result<(), RequestBodyBuildError>,
        | #[trigger]
            call_ensures(publish_request_body_framing, (request, pool, candidate, body), result)
                ==> {
                let list = request.headers_in.headers;
                let needed: int = if list.parts@.last().nelts == list.nalloc {
                    2
                } else {
                    0
                };
                &&& result is Ok <==> pool.blocks@.len() >= needed
                &&& result is Ok ==> {
                    &&& framed_for(
                        request.headers_in,
                        final(request).headers_in,
                        candidate.content_length_n as usize,
                    )
                    &&& final(request).request_body == body
                    &&& *final(request) == (NativeRequest {
                        headers_in: final(request).headers_in,
                        request_body: final(request).request_body,
                        ..*request
                    })
                    &&& final(pool).blocks@.len() == pool.blocks@.len() - needed
                }
                &&& result matches Err(error) ==> *final(request) == *request && error
                    == RequestBodyBuildError::HeaderBuild(HeaderBuildError::Allocation)
                &&& final(pool).registry == pool.registry
                &&& final(pool).contexts == pool.contexts
                &&& final(pool).files == pool.files
            },
{
    assert forall|
        request: &mut NativeRequest,
        pool: &mut NativePool,
        result: Result<(), RequestBodyBuildError>,
    | #[trigger]
        call_ensures(publish_request_body_framing, (request, pool, candidate, body), result)
            && result is Ok implies framed_for(
        request.headers_in,
        final(request).headers_in,
        candidate.content_length_n as usize,
    ) by {
        law_framing_is_the_length_alone(
            request.headers_in,
            final(request).headers_in,
            candidate.content_length_n as usize,
        );
    }
}

} // verus!
