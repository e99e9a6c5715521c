//! Replacement input headers that are published together with a body.

use vstd::prelude::*;

use crate::buffer::BufferError;
use crate::native::{NativePool, NativeRequest, NativeState, Pointer};
use crate::request::body::{
    decimal_bytes, NativeBody, RequestBodyBuildError, RequestBodyCandidate, RequestBodyError,
    RequestBodySize,
};
use crate::request::header_builders::HttpHeadersInBuilder;
use crate::request::header_list::{
    append_pool_header, disable_framing_headers, repair_header_list_last,
};
use crate::request::header_slots::{bind_headers_in, HeaderSlot, NativeHeadersIn};
use crate::request::headers::{HeaderBuildError, HttpHeaderSource};
use crate::request::view::RequestError;

verus! {

impl NativeHeadersIn {
    /// Why candidate headers cannot frame a body of `length` bytes, for reasons other than storage.
    pub open spec fn replacement_fault(self, length: usize) -> Option<RequestBodyBuildError> {
        if length > i64::MAX {
            Some(RequestBodyBuildError::ContentLengthTooLarge)
        } else {
            match self.headers.check() {
                Err(error) => Some(RequestBodyBuildError::HeaderList(error)),
                Ok(_) => if self.count == usize::MAX {
                    Some(RequestBodyBuildError::HeaderBuild(HeaderBuildError::CountOverflow))
                } else {
                    None
                },
            }
        }
    }
}

/// Candidate headers with the framing of a body of `length` bytes.
pub fn replace_request_body_framing(
    headers: NativeHeadersIn,
    pool: &mut NativePool,
    length: usize,
) -> (result: Result<NativeHeadersIn, RequestBodyBuildError>)
    requires
        headers.headers.candidate(),
        headers.slots_match(),
    ensures
        *final(pool) == (NativePool { blocks: final(pool).blocks, ..*old(pool) }),
        NativePool::spent_from(final(pool).blocks@, old(pool).blocks@),
        match result {
            Err(error) => match headers.replacement_fault(length) {
                Some(fault) => error == fault && final(pool).blocks@ == old(pool).blocks@,
                None => {
                    &&& error == RequestBodyBuildError::HeaderBuild(HeaderBuildError::Allocation)
                    &&& old(pool).blocks@.len() < 3 + headers.headers.append_blocks()
                },
            },
            Ok(after) => {
                &&& headers.replacement_fault(length) is None
                &&& old(pool).blocks@.len() >= 3 + headers.headers.append_blocks()
                &&& final(pool).blocks@ == NativePool::spend(
                    old(pool).blocks@,
                    3 + headers.headers.append_blocks(),
                )
                &&& after.framed(headers, length)
                &&& after.slots_match()
            },
        },
{
    let ghost before = headers;
    let ghost earlier = before.headers.placed_entries();
    proof {
        NativePool::lemma_spend(pool.blocks@, 0, 0);
        crate::request::body::lemma_content_length_key();
        crate::request::header_list::lemma_content_length_is_enabled();
        crate::request::body::lemma_decimal_len(length as nat);
    }
    if length as u64 > i64::MAX as u64 {
        return Err(RequestBodyBuildError::ContentLengthTooLarge);
    }
    let mut headers = headers;
    match disable_framing_headers(&mut headers.headers, HttpHeaderSource::Input) {
        Ok(_) => {},
        Err(error) => return Err(RequestBodyBuildError::from(error)),
    }
    let ghost disabled = headers.headers;
    proof {
        disabled.lemma_same_shape(before.headers);
        disabled.lemma_appendable_by_shape(before.headers);
    }
    headers.slots.set(HeaderSlot::ContentLength, Vec::new());
    headers.transfer_encoding = Vec::new();
    let value = decimal_bytes(length);
    let count = match headers.count.checked_add(1) {
        Some(count) => count,
        None => return Err(RequestBodyBuildError::from(HeaderBuildError::CountOverflow)),
    };
    let at = match append_pool_header(
        &mut headers.headers,
        pool,
        "Content-Length".as_bytes(),
        value.as_slice(),
    ) {
        Ok(at) => at,
        Err(error) => return Err(RequestBodyBuildError::from(error)),
    };
    headers.count = count;
    let ghost bound = headers;
    bind_headers_in(&mut headers, at);
    headers.content_length_n = length as i64;
    headers.chunked = false;
    proof {
        let entries = headers.headers.placed_entries();
        let header = headers.headers.at(at);
        assert(entries[entries.len() - 1] == (at, header));
        assert(header.view().hash == header.hash);
        assert(header.view().key == header.key.bytes());
        assert forall|k: int| 0 <= k < earlier.len() implies #[trigger] entries[k] == (
            earlier[k].0,
            crate::request::header_list::unframed(earlier[k].1),
        ) by {
            assert(disabled.placed_entries()[k] == entries[k]);
        }
        assert forall|slot: HeaderSlot|
            slot != HeaderSlot::ContentLength implies #[trigger] headers.slots.chain(slot)
            == before.slots.chain(slot) by {
            if slot.names(crate::request::body::content_length_key()) {
                crate::request::header_slots::law_slot_names_are_distinct(
                    crate::request::body::content_length_key(),
                    slot,
                    HeaderSlot::ContentLength,
                );
            }
            assert(bound.slots.chain(slot) == before.slots.chain(slot));
        }
        assert(bound.slots.chain(HeaderSlot::ContentLength).len() == 0);
        assert(headers.slots.chain(HeaderSlot::ContentLength) =~= seq![at]);
        if HeaderSlot::Host.names(crate::request::body::content_length_key()) {
            crate::request::header_slots::law_slot_names_are_distinct(
                crate::request::body::content_length_key(),
                HeaderSlot::Host,
                HeaderSlot::ContentLength,
            );
        }
        headers.law_framing_keeps_the_slots(before, length);
    }
    Ok(headers)
}

impl NativeState {
    /// What publishing candidate headers with a body of `length` bytes, whose structure takes
    /// `body_blocks` blocks, makes of `before`. A refusal leaves every request as it was.
    pub open spec fn replacement_published(
        self,
        before: NativeState,
        builder: HttpHeadersInBuilder,
        length: usize,
        body_blocks: nat,
        result: Result<(), RequestBodyBuildError>,
    ) -> bool {
        let blocks = before.pools@[builder.pool].blocks@;
        let framing = 3 + builder.headers.headers.append_blocks();
        &&& self == (NativeState { requests: self.requests, pools: self.pools, ..before })
        &&& self.drew_from(before, builder.pool)
        &&& match result {
            Err(error) => {
                &&& self.requests@ == before.requests@
                &&& match builder.headers.replacement_fault(length) {
                    Some(fault) => error == fault,
                    None => if blocks.len() < framing {
                        error == RequestBodyBuildError::HeaderBuild(HeaderBuildError::Allocation)
                    } else {
                        &&& error == RequestBodyBuildError::Allocation
                        &&& blocks.len() < framing + body_blocks
                    },
                }
            },
            Ok(_) => {
                let after = self.requests@[builder.request];
                &&& builder.headers.replacement_fault(length) is None
                &&& blocks.len() >= framing + body_blocks
                &&& self.drew(before, builder.pool, framing + body_blocks)
                &&& self.requests@ == before.requests@.insert(builder.request, after)
                &&& after == (NativeRequest {
                    headers_in: after.headers_in,
                    request_body: after.request_body,
                    ..before.requests@[builder.request]
                })
                &&& after.headers_in.framed(builder.headers, length)
                &&& after.headers_in.slots_match()
            },
        }
    }
}

/// Publishes candidate headers and a body.
fn publish_request_body(
    request: &mut NativeRequest,
    headers: NativeHeadersIn,
    body: Pointer<NativeBody>,
)
    requires
        headers.headers.chained(),
        headers.headers.last == headers.headers.parts@.len() - 1,
    ensures
        *final(request) == (NativeRequest {
            headers_in: headers,
            request_body: body,
            ..*old(request)
        }),
{
    let mut headers = headers;
    repair_header_list_last(&mut headers.headers);
    request.headers_in = headers;
    request.request_body = body;
}

impl HttpHeadersInBuilder {
    /// Starts constructing a request-pool body candidate for this replacement-header set.
    pub fn request_body_candidate(&self) -> (result: Result<
        RequestBodyCandidate,
        RequestBodyBuildError,
    >)
        ensures
            if NativeState::aligned(self.pool) && self.pool != 0 {
                result matches Ok(body) && body.wf() && body.pool == self.pool
                    && body.chain.buffers@.len() == 0 && body.length == 0
            } else {
                result matches Err(error) && error == RequestBodyBuildError::Request(
                    RequestError::MisalignedPool,
                )
            },
    {
        if self.pool == 0 || !crate::native::is_aligned(self.pool) {
            return Err(RequestBodyBuildError::from(RequestError::MisalignedPool));
        }
        Ok(RequestBodyCandidate::new(self.pool))
    }

    /// Publishes the replacement headers, body, and authoritative body framing together.
    pub fn commit_with_body(self, native: &mut NativeState, body: RequestBodyCandidate) -> (result:
        Result<(), RequestBodyBuildError>)
        requires
            self.wf(),
            body.wf(),
            old(native).requests@.contains_key(self.request),
            old(native).pools@.contains_key(self.pool),
        ensures
            if self.pool != body.pool {
                &&& result == Err::<(), RequestBodyBuildError>(
                    RequestBodyBuildError::Buffer(BufferError::ForeignPool),
                )
                &&& final(native).unchanged(*old(native))
            } else {
                final(native).replacement_published(*old(native), self, body.length, 1, result)
            },
            result is Ok ==> {
                &&& final(native).requests@[self.request].request_body matches Pointer::To(b)
                &&& body.is_body(b)
                &&& b.measured() == Ok::<RequestBodySize, RequestBodyError>(
                    (RequestBodySize { bytes: body.length, saturated: false }),
                )
            },
    {
        if self.pool != body.pool {
            return Err(RequestBodyBuildError::Buffer(BufferError::ForeignPool));
        }
        let raw = self.request;
        let address = self.pool;
        let ghost candidate = body;
        let mut pool = native.take_pool(address);
        let ghost blocks = pool.blocks@;
        proof {
            NativePool::lemma_spend(blocks, 3 + self.headers.headers.append_blocks(), 1);
        }
        let framed = replace_request_body_framing(self.headers, &mut pool, body.length);
        let ghost left = pool.blocks@;
        let headers = match framed {
            Ok(headers) => headers,
            Err(error) => {
                native.put_pool(address, pool);
                assert(native.pools@ =~= old(native).pools@.insert(address, pool));
                return Err(error);
            },
        };
        let made = body.into_raw(&mut pool);
        native.put_pool(address, pool);
        proof {
            crate::request::header_list::lemma_spent_twice(pool.blocks@, left, blocks);
            assert(native.pools@ =~= old(native).pools@.insert(address, pool));
        }
        let raw_body = match made {
            Ok(raw_body) => raw_body,
            Err(error) => return Err(error),
        };
        proof {
            candidate.law_body_has_the_candidate_length(raw_body);
        }
        let mut request = native.take_request(raw);
        publish_request_body(&mut request, headers, Pointer::To(raw_body));
        native.put_request(raw, request);
        assert(native.requests@ =~= old(native).requests@.insert(raw, request));
        Ok(())
    }

    /// Publishes the replacement headers with a null body and a zero Content-Length.
    pub fn commit_without_body(self, native: &mut NativeState) -> (result: Result<
        (),
        RequestBodyBuildError,
    >)
        requires
            self.wf(),
            old(native).requests@.contains_key(self.request),
            old(native).pools@.contains_key(self.pool),
        ensures
            final(native).replacement_published(*old(native), self, 0, 0, result),
            result is Ok ==> final(native).requests@[self.request].request_body is Null,
    {
        let raw = self.request;
        let address = self.pool;
        let mut pool = native.take_pool(address);
        let framed = replace_request_body_framing(self.headers, &mut pool, 0);
        native.put_pool(address, pool);
        assert(native.pools@ =~= old(native).pools@.insert(address, pool));
        let headers = match framed {
            Ok(headers) => headers,
            Err(error) => return Err(error),
        };
        let mut request = native.take_request(raw);
        publish_request_body(&mut request, headers, Pointer::Null);
        native.put_request(raw, request);
        assert(native.requests@ =~= old(native).requests@.insert(raw, request));
        Ok(())
    }
}

} // verus!
