//! Builders that replace the header lists of a request.

use vstd::prelude::*;
use vstd::slice::slice_to_vec;

use crate::native::{NativePool, NativeState, NativeString};
use crate::request::header_list::{
    append_header, append_pool_header, copy_pool_bytes, create_header_list, is_framing_key,
    repair_header_list_last,
};
use crate::request::header_slots::{
    bind_headers_in, bind_headers_out, HeaderSlot, HeaderSlots, NativeHeadersIn, NativeHeadersOut,
};
use crate::request::headers::{
    checked_header_list, EntryAt, HeaderBuildError, HttpHeaderSource, NativeHeader,
    NativeList, NativeListPart,
};
use crate::request::view::RequestRefMut;

verus! {

impl NativeList {
    /// Whether a candidate list can be appended to, and every entry of it has its strings.
    pub open spec fn candidate(self) -> bool {
        &&& self.appendable()
        &&& self.last == self.parts@.len() - 1
        &&& forall|k: int|
            0 <= k < self.placed_entries().len() ==> (#[trigger] self.placed_entries()[k]).1.whole()
    }

    /// Whether this list is `before` with a copy of a header behind its entries.
    pub open spec fn gained(self, before: NativeList, key: Seq<u8>, value: Seq<u8>) -> bool {
        &&& self.placed_entries().len() == before.placed_entries().len() + 1
        &&& self.placed_entries().drop_last() == before.placed_entries()
        &&& crate::request::header_list::is_built(self.placed_entries().last().1, key, value)
        &&& self.nalloc == before.nalloc
    }

    /// Blocks that a copy of a header behind the entries takes.
    pub open spec fn gain_blocks(self, key: Seq<u8>) -> nat {
        crate::request::header_list::header_blocks(key) + self.append_blocks()
    }

    /// Whether a header can be copied behind the entries when a pool has `blocks` left.
    pub open spec fn can_gain(self, blocks: Seq<usize>, key: Seq<u8>, value: Seq<u8>) -> bool {
        &&& crate::request::header_list::header_fits(key, value)
        &&& blocks.len() >= self.gain_blocks(key)
    }

    /// An appended header is the last entry, and a candidate stays one.
    proof fn lemma_gained(self, before: NativeList, at: EntryAt, key: Seq<u8>, value: Seq<u8>)
        requires
            before.candidate(),
            self.appended(before, at, self.at(at)),
            crate::request::header_list::is_built(self.at(at), key, value),
        ensures
            self.gained(before, key, value),
            self.candidate(),
            self.placed_entries().last() == (at, self.at(at)),
    {
        assert(self.placed_entries().drop_last() =~= before.placed_entries());
        assert forall|k: int| 0 <= k < self.placed_entries().len() implies (
        #[trigger] self.placed_entries()[k]).1.whole() by {
            if k < before.placed_entries().len() {
                assert(before.placed_entries()[k].1.whole());
            }
        }
    }

    /// The entries that a slot leads to are entries of the list.
    pub proof fn lemma_named(self, slot: HeaderSlot, i: int)
        requires
            0 <= i < self.named(slot).len(),
        ensures
            self.has(self.named(slot)[i]),
    {
        let k = Self::lemma_named_of(self.placed_entries(), slot, i);
        self.lemma_placed(k);
    }

    proof fn lemma_named_of(entries: Seq<(EntryAt, NativeHeader)>, slot: HeaderSlot, i: int) -> (k:
        int)
        requires
            0 <= i < Self::named_of(entries, slot).len(),
        ensures
            0 <= k < entries.len(),
            entries[k].0 == Self::named_of(entries, slot)[i],
        decreases entries.len(),
    {
        if i < Self::named_of(entries.drop_last(), slot).len() {
            Self::lemma_named_of(entries.drop_last(), slot, i)
        } else {
            entries.len() - 1
        }
    }
}

impl NativeHeader {
    /// Whether the strings of the entry have their data.
    pub open spec fn whole(self) -> bool {
        &&& self.readable()
        &&& !self.key.missing()
        &&& !self.value.missing()
    }
}

/// Request-pool builder for atomically replacing HTTP input headers.
#[derive(Debug)]
pub struct HttpHeadersInBuilder {
    pub request: usize,
    pub pool: usize,
    pub headers: NativeHeadersIn,
}

impl HttpHeadersInBuilder {
    /// Whether the list, the count and the slots of the candidate agree.
    pub open spec fn wf(self) -> bool {
        &&& self.headers.headers.candidate()
        &&& self.headers.slots_match()
        &&& self.headers.server_matches()
        &&& self.headers.count == self.headers.headers.placed_entries().len()
        &&& self.headers.transfer_encoding@.len() == 0
        &&& self.headers.content_length_n == -1
        &&& self.headers.keep_alive_n == -1
        &&& !self.headers.chunked
    }

    /// A candidate without headers.
    pub fn new(request: &RequestRefMut, native: &mut NativeState, capacity: usize) -> (result:
        Result<Self, HeaderBuildError>)
        requires
            old(native).requests@.contains_key(request.raw),
            old(native).pool_resolves(request.raw),
        ensures
            *final(native) == (NativeState { pools: final(native).pools, ..*old(native) }),
            match old(native).pool_of(request.raw) {
                Err(error) => {
                    &&& result == Err::<Self, HeaderBuildError>(HeaderBuildError::Request(error))
                    &&& final(native).pools@ == old(native).pools@
                },
                Ok(pool) => match result {
                    Err(error) => {
                        &&& final(native).drew_from(*old(native), pool)
                        &&& list_refused(capacity, old(native).pools@[pool].blocks@, error)
                    },
                    Ok(builder) => {
                        &&& NativeList::capacity_fits(capacity)
                        &&& final(native).drew(*old(native), pool, 1)
                        &&& old(native).pools@[pool].blocks@.len() > 0
                        &&& builder.wf()
                        &&& builder.request == request.raw
                        &&& builder.pool == pool
                        &&& builder.headers.headers.fresh(capacity)
                    },
                },
            },
    {
        let address = match request.pool(native) {
            Ok(address) => address,
            Err(error) => return Err(HeaderBuildError::from(error)),
        };
        let headers = match create_list(native, address, capacity) {
            Ok(headers) => headers,
            Err(error) => return Err(error),
        };
        let headers = NativeHeadersIn {
            headers,
            slots: HeaderSlots::empty(),
            transfer_encoding: Vec::new(),
            server: NativeString::empty(),
            count: 0,
            content_length_n: -1,
            keep_alive_n: -1,
            chunked: false,
        };
        assert(headers.headers.placed_entries() =~= Seq::empty());
        Ok(HttpHeadersInBuilder { request: request.raw, pool: address, headers })
    }

    /// Adds a copied raw input header to the candidate list.
    pub fn add(&mut self, native: &mut NativeState, key: &[u8], value: &[u8]) -> (result: Result<
        (),
        HeaderBuildError,
    >)
        requires
            old(self).wf(),
            old(native).pools@.contains_key(old(self).pool),
        ensures
            *final(native) == (NativeState { pools: final(native).pools, ..*old(native) }),
            final(self).wf(),
            final(self).request == old(self).request,
            final(self).pool == old(self).pool,
            final(native).drew_from(*old(native), old(self).pool),
            ({
                let list = old(self).headers.headers;
                let blocks = old(native).pools@[old(self).pool].blocks@;
                match result {
                    Err(error) => {
                        &&& *final(self) == *old(self)
                        &&& if old(self).headers.count == usize::MAX {
                            error == HeaderBuildError::CountOverflow
                        } else {
                            error == HeaderBuildError::Allocation && !list.can_gain(
                                blocks,
                                key@,
                                value@,
                            )
                        }
                    },
                    Ok(_) => {
                        &&& old(self).headers.count < usize::MAX
                        &&& list.can_gain(blocks, key@, value@)
                        &&& final(native).drew(
                            *old(native),
                            old(self).pool,
                            list.gain_blocks(key@),
                        )
                        &&& final(self).headers.headers.gained(list, key@, value@)
                        &&& final(self).headers.count == old(self).headers.count + 1
                    },
                }
            }),
    {
        let ghost before = *self;
        let count = match self.headers.count.checked_add(1) {
            Some(count) => count,
            None => {
                proof {
                    NativePool::lemma_spend(native.pools@[self.pool].blocks@, 0, 0);
                    assert(native.pools@ =~= native.pools@.insert(
                        self.pool,
                        native.pools@[self.pool],
                    ));
                }
                return Err(HeaderBuildError::CountOverflow);
            },
        };
        let at = match append_to(&mut self.headers.headers, native, self.pool, key, value) {
            Ok(at) => at,
            Err(error) => return Err(error),
        };
        let ghost list = self.headers.headers;
        self.headers.count = count;
        bind_headers_in(&mut self.headers, at);
        proof {
            let entries = list.placed_entries();
            assert forall|slot: HeaderSlot| #[trigger]
                self.headers.slots.chain(slot) == (if slot.input() {
                    list.named(slot)
                } else {
                    Seq::empty()
                }) by {
                assert(before.headers.slots.chain(slot) == (if slot.input() {
                    before.headers.headers.named(slot)
                } else {
                    Seq::empty()
                }));
            }
            let hosts = before.headers.headers.named(HeaderSlot::Host);
            assert(before.headers.slots.chain(HeaderSlot::Host) == hosts);
            assert(self.headers.slots.chain(HeaderSlot::Host) == list.named(HeaderSlot::Host));
            if hosts.len() > 0 {
                before.headers.headers.lemma_named(HeaderSlot::Host, 0);
                assert(list.at(hosts[0]) == before.headers.headers.at(hosts[0]));
                assert(list.named(HeaderSlot::Host)[0] == hosts[0]);
            }
        }
        Ok(())
    }

    /// Publishes the complete input-header candidate to the request.
    pub fn commit(self, native: &mut NativeState)
        requires
            self.wf(),
            old(native).requests@.contains_key(self.request),
        ensures
            *final(native) == (NativeState { requests: final(native).requests, ..*old(native) }),
            final(native).requests@ == old(native).requests@.insert(
                self.request,
                (crate::native::NativeRequest {
                    headers_in: self.headers,
                    ..old(native).requests@[self.request]
                }),
            ),
            final(native).requests@[self.request].headers_in.slots_match(),
            final(native).requests@[self.request].headers_in.server_matches(),
    {
        let mut request = native.take_request(self.request);
        let mut headers = self.headers;
        repair_header_list_last(&mut headers.headers);
        request.headers_in = headers;
        native.put_request(self.request, request);
        assert(native.requests@ =~= old(native).requests@.insert(self.request, request));
    }
}

/// Why a header list could not be created.
pub open spec fn list_refused(
    capacity: usize,
    blocks: Seq<usize>,
    error: HeaderBuildError,
) -> bool {
    if !NativeList::capacity_fits(capacity) {
        error == HeaderBuildError::InvalidCapacity
    } else {
        error == HeaderBuildError::Allocation && blocks.len() == 0
    }
}

/// Creates a header list in the pool at `pool`.
fn create_list(native: &mut NativeState, pool: usize, capacity: usize) -> (result: Result<
    NativeList,
    HeaderBuildError,
>)
    requires
        old(native).pools@.contains_key(pool),
    ensures
        *final(native) == (NativeState { pools: final(native).pools, ..*old(native) }),
        final(native).drew_from(*old(native), pool),
        match result {
            Err(error) => list_refused(capacity, old(native).pools@[pool].blocks@, error),
            Ok(list) => {
                &&& NativeList::capacity_fits(capacity)
                &&& old(native).pools@[pool].blocks@.len() > 0
                &&& final(native).drew(*old(native), pool, 1)
                &&& list.fresh(capacity)
                &&& list.candidate()
            },
        },
{
    let mut taken = native.take_pool(pool);
    let result = create_header_list(&mut taken, capacity);
    native.put_pool(pool, taken);
    assert(native.pools@ =~= old(native).pools@.insert(pool, taken));
    result
}

/// Copies a header behind the entries of a candidate, in the pool at `pool`.
fn append_to(
    headers: &mut NativeList,
    native: &mut NativeState,
    pool: usize,
    key: &[u8],
    value: &[u8],
) -> (result: Result<EntryAt, HeaderBuildError>)
    requires
        old(headers).candidate(),
        old(native).pools@.contains_key(pool),
    ensures
        *final(native) == (NativeState { pools: final(native).pools, ..*old(native) }),
        final(native).drew_from(*old(native), pool),
        match result {
            Err(error) => {
                &&& error == HeaderBuildError::Allocation
                &&& !old(headers).can_gain(old(native).pools@[pool].blocks@, key@, value@)
                &&& *final(headers) == *old(headers)
            },
            Ok(at) => {
                &&& old(headers).can_gain(old(native).pools@[pool].blocks@, key@, value@)
                &&& final(native).drew(*old(native), pool, old(headers).gain_blocks(key@))
                &&& final(headers).candidate()
                &&& final(headers).gained(*old(headers), key@, value@)
                &&& final(headers).placed_entries().last() == (at, final(headers).at(at))
                &&& final(headers).appended(*old(headers), at, final(headers).at(at))
            },
        },
{
    let ghost before = *headers;
    let mut taken = native.take_pool(pool);
    let result = append_pool_header(headers, &mut taken, key, value);
    native.put_pool(pool, taken);
    proof {
        assert(native.pools@ =~= old(native).pools@.insert(pool, taken));
        match result {
            Ok(at) => {
                headers.lemma_gained(before, at, key@, value@);
            },
            Err(_) => {},
        }
    }
    result
}

/// Request-pool builder for atomically replacing HTTP output trailers.
#[derive(Debug)]
pub struct HttpTrailersOutBuilder {
    pub request: usize,
    pub pool: usize,
    pub trailers: NativeList,
    pub has_trailers: bool,
}

impl HttpTrailersOutBuilder {
    /// Whether the candidate can be appended to and knows whether it has trailers.
    pub open spec fn wf(self) -> bool {
        &&& self.trailers.candidate()
        &&& self.has_trailers == (self.trailers.placed_entries().len() > 0)
    }

    /// A candidate without trailers.
    pub fn new(request: &RequestRefMut, native: &mut NativeState, capacity: usize) -> (result:
        Result<Self, HeaderBuildError>)
        requires
            old(native).requests@.contains_key(request.raw),
            old(native).pool_resolves(request.raw),
        ensures
            *final(native) == (NativeState { pools: final(native).pools, ..*old(native) }),
            match old(native).pool_of(request.raw) {
                Err(error) => {
                    &&& result == Err::<Self, HeaderBuildError>(HeaderBuildError::Request(error))
                    &&& final(native).pools@ == old(native).pools@
                },
                Ok(pool) => match result {
                    Err(error) => {
                        &&& final(native).drew_from(*old(native), pool)
                        &&& list_refused(capacity, old(native).pools@[pool].blocks@, error)
                    },
                    Ok(builder) => {
                        &&& NativeList::capacity_fits(capacity)
                        &&& final(native).drew(*old(native), pool, 1)
                        &&& old(native).pools@[pool].blocks@.len() > 0
                        &&& builder.wf()
                        &&& builder.request == request.raw
                        &&& builder.pool == pool
                        &&& builder.trailers.fresh(capacity)
                    },
                },
            },
    {
        let address = match request.pool(native) {
            Ok(address) => address,
            Err(error) => return Err(HeaderBuildError::from(error)),
        };
        match create_list(native, address, capacity) {
            Ok(trailers) => Ok(
                HttpTrailersOutBuilder {
                    request: request.raw,
                    pool: address,
                    trailers,
                    has_trailers: false,
                },
            ),
            Err(error) => Err(error),
        }
    }

    /// Adds a copied raw output trailer to the candidate list.
    pub fn add(&mut self, native: &mut NativeState, key: &[u8], value: &[u8]) -> (result: Result<
        (),
        HeaderBuildError,
    >)
        requires
            old(self).wf(),
            old(native).pools@.contains_key(old(self).pool),
        ensures
            *final(native) == (NativeState { pools: final(native).pools, ..*old(native) }),
            final(self).wf(),
            final(self).request == old(self).request,
            final(self).pool == old(self).pool,
            final(native).drew_from(*old(native), old(self).pool),
            ({
                let list = old(self).trailers;
                let blocks = old(native).pools@[old(self).pool].blocks@;
                match result {
                    Err(error) => {
                        &&& error == HeaderBuildError::Allocation
                        &&& !list.can_gain(blocks, key@, value@)
                        &&& *final(self) == *old(self)
                    },
                    Ok(_) => {
                        &&& list.can_gain(blocks, key@, value@)
                        &&& final(native).drew(
                            *old(native),
                            old(self).pool,
                            list.gain_blocks(key@),
                        )
                        &&& final(self).trailers.gained(list, key@, value@)
                        &&& final(self).has_trailers
                    },
                }
            }),
    {
        match append_to(&mut self.trailers, native, self.pool, key, value) {
            Ok(_) => {
                self.has_trailers = true;
                Ok(())
            },
            Err(error) => Err(error),
        }
    }

    /// Publishes the complete output-trailer candidate to the request.
    pub fn commit(self, native: &mut NativeState)
        requires
            self.wf(),
            old(native).requests@.contains_key(self.request),
        ensures
            *final(native) == (NativeState { requests: final(native).requests, ..*old(native) }),
            final(native).requests@ == old(native).requests@.insert(
                self.request,
                (crate::native::NativeRequest {
                    headers_out: NativeHeadersOut {
                        trailers: self.trailers,
                        ..old(native).requests@[self.request].headers_out
                    },
                    expect_trailers: self.has_trailers,
                    ..old(native).requests@[self.request]
                }),
            ),
    {
        let mut request = native.take_request(self.request);
        let mut trailers = self.trailers;
        repair_header_list_last(&mut trailers);
        request.headers_out.trailers = trailers;
        request.expect_trailers = self.has_trailers;
        native.put_request(self.request, request);
        assert(native.requests@ =~= old(native).requests@.insert(self.request, request));
    }
}

impl NativeList {
    /// Whether this list holds what the enabled entries of `source` say, without lowercase keys,
    /// in one part that has room for `capacity` entries.
    pub open spec fn cloned_from(self, source: NativeList, capacity: int) -> bool {
        &&& self.candidate()
        &&& self.nalloc == capacity
        &&& self.parts@.len() == 1
        &&& self.placed_entries().len() == source.enabled().len()
        &&& forall|k: int|
            0 <= k < source.enabled().len() ==> (#[trigger] self.placed_entries()[k]).1.view()
                == HttpHeaderSource::Output.shows(source.enabled()[k])
    }

    /// Why a clone of the list with room for `additional` more entries was refused.
    pub open spec fn clone_refused(
        self,
        additional: usize,
        blocks: Seq<usize>,
        error: HeaderBuildError,
    ) -> bool {
        match self.check() {
            Err(invalid) => error == HeaderBuildError::InvalidSource(invalid),
            Ok(_) => {
                let capacity = self.enabled().len() + additional;
                if capacity > usize::MAX {
                    error == HeaderBuildError::CountOverflow
                } else {
                    list_refused(capacity as usize, blocks, error)
                }
            },
        }
    }

    /// Whether the list is `before` without its entries.
    pub open spec fn emptied(self, before: NativeList) -> bool {
        &&& self == (NativeList { parts: self.parts, last: 0, ..before })
        &&& self.parts@.len() == 1
        &&& self.parts@[0].nelts == 0
        &&& self.parts@[0].next is None
        &&& self.parts@[0].elts is Some == before.parts@[0].elts is Some
        &&& self.parts@[0].entries().len() == 0
    }
}

/// A list with copies of the enabled entries of `source` and room for more.
pub fn clone_header_list(
    pool: &mut NativePool,
    source: &NativeList,
    additional_capacity: usize,
) -> (result: Result<NativeList, HeaderBuildError>)
    requires
        source.faithful(),
    ensures
        *final(pool) == (NativePool { blocks: final(pool).blocks, ..*old(pool) }),
        NativePool::spent_from(final(pool).blocks@, old(pool).blocks@),
        match result {
            Err(error) => source.clone_refused(additional_capacity, old(pool).blocks@, error),
            Ok(list) => {
                let capacity = source.enabled().len() + additional_capacity;
                &&& source.check() is Ok
                &&& capacity <= usize::MAX
                &&& NativeList::capacity_fits(capacity as usize)
                &&& old(pool).blocks@.len() > 0
                &&& final(pool).blocks@ == NativePool::spend(old(pool).blocks@, 1)
                &&& list.cloned_from(*source, capacity)
            },
        },
{
    let ghost blocks = pool.blocks@;
    proof {
        NativePool::lemma_spend(blocks, 1, 0);
        NativePool::lemma_spend(blocks, 0, 0);
    }
    let checked = match checked_header_list(source, HttpHeaderSource::Output) {
        Ok(checked) => checked,
        Err(error) => return Err(HeaderBuildError::InvalidSource(error)),
    };
    let capacity = match checked.len().checked_add(additional_capacity) {
        Some(capacity) => capacity,
        None => return Err(HeaderBuildError::CountOverflow),
    };
    let mut candidate = match create_header_list(pool, capacity) {
        Ok(candidate) => candidate,
        Err(error) => return Err(error),
    };
    let ghost left = pool.blocks@;
    let mut headers = checked.iter();
    proof {
        assert(candidate.placed_entries() =~= Seq::empty());
        assert(source.enabled().skip(0) =~= source.enabled());
        NativePool::lemma_spend(left, 0, 0);
    }
    let mut count: usize = 0;
    while headers.len() > 0
        invariant
            headers.wf(),
            headers.source == HttpHeaderSource::Output,
            count <= source.enabled().len(),
            headers.pending() == source.enabled().skip(count as int),
            source.enabled().len() + additional_capacity == capacity,
            candidate.candidate(),
            candidate.nalloc == capacity,
            candidate.parts@.len() == 1,
            candidate.placed_entries().len() == count,
            candidate.parts@[0].nelts == count,
            forall|k: int|
                0 <= k < count ==> (#[trigger] candidate.placed_entries()[k]).1.view()
                    == HttpHeaderSource::Output.shows(source.enabled()[k]),
            pool.blocks@ == left,
            *pool == (NativePool { blocks: pool.blocks, ..*old(pool) }),
        decreases headers.pending().len(),
    {
        let ghost before = candidate;
        let header = headers.next().unwrap();
        let key = slice_to_vec(header.key());
        let value = slice_to_vec(header.value());
        let entry = NativeHeader {
            hash: header.hash(),
            key: NativeString { len: key.len(), data: Some(key) },
            value: NativeString { len: value.len(), data: Some(value) },
            lowcase_key: None,
        };
        proof {
            NativePool::lemma_spend(left, 0, 0);
            assert(entry.key.bytes() =~= key@);
            assert(entry.value.bytes() =~= value@);
            assert(entry.view() =~= header.view());
            assert(source.enabled().skip(count as int).drop_first() =~= source.enabled().skip(
                count + 1,
            ));
            assert(before.parts@.last() == before.parts@[0]);
        }
        match append_header(&mut candidate, pool, entry) {
            Ok(_) => {},
            Err(error) => return Err(error),
        }
        count = count + 1;
        proof {
            assert(candidate.parts@.last() == candidate.parts@[0]);
            assert forall|k: int| 0 <= k < candidate.placed_entries().len() implies (
            #[trigger] candidate.placed_entries()[k]).1.whole() by {
                if k < before.placed_entries().len() {
                    assert(before.placed_entries()[k].1.whole());
                }
            }
            assert forall|k: int| 0 <= k < count implies (
            #[trigger] candidate.placed_entries()[k]).1.view() == HttpHeaderSource::Output.shows(
                source.enabled()[k],
            ) by {
                if k < before.placed_entries().len() {
                    assert(before.placed_entries()[k].1.view() == HttpHeaderSource::Output.shows(
                        source.enabled()[k],
                    ));
                }
            }
        }
    }
    Ok(candidate)
}

/// The first part of a list without its entries, as a list of its own.
fn emptied_list(list: &NativeList) -> (result: NativeList)
    requires
        list.parts@.len() > 0,
    ensures
        result.emptied(*list),
        result.faithful(),
        result.placed_entries().len() == 0,
{
    let elts = match &list.parts[0].elts {
        Some(_) => {
            let none: Vec<NativeHeader> = Vec::new();
            Some(none)
        },
        None => None,
    };
    let mut parts: Vec<NativeListPart> = Vec::new();
    parts.push(NativeListPart { elts, nelts: 0, next: None });
    let emptied = NativeList { parts, last: 0, size: list.size, nalloc: list.nalloc };
    proof {
        emptied.lemma_empty();
    }
    emptied
}

/// Request-pool builder for atomically replacing HTTP output headers.
///
/// The builder holds what it changes; everything else of the response stays as it is until
/// [`commit`](Self::commit).
#[derive(Debug)]
pub struct HttpHeadersOutBuilder {
    pub request: usize,
    pub pool: usize,
    pub headers: NativeList,
    pub slots: HeaderSlots,
    /// Copied Content-Type, once it was set.
    pub content_type: Option<NativeString>,
    /// Content-Length, once it was set.
    pub content_length: Option<i64>,
    pub trailer_capacity: usize,
    /// Candidate trailers, once one was added.
    pub trailers: Option<NativeList>,
    pub expect_trailers: Option<bool>,
    /// Whether the response metadata starts afresh.
    pub clean: bool,
}

impl HttpHeadersOutBuilder {
    /// Whether the list and the slots of the candidate agree, and no entry belongs to the framing
    /// of the response.
    pub open spec fn wf(self) -> bool {
        &&& self.headers.candidate()
        &&& self.slots.wf()
        &&& forall|slot: HeaderSlot| #[trigger]
            self.slots.chain(slot) == (if slot.output() {
                self.headers.named(slot)
            } else {
                Seq::empty()
            })
        &&& forall|k: int|
            0 <= k < self.headers.placed_entries().len()
                ==> !crate::request::header_list::is_framing(
                (#[trigger] self.headers.placed_entries()[k]).1.key.bytes(),
            )
        &&& NativeList::capacity_fits(self.trailer_capacity)
        &&& self.trailers matches Some(trailers) ==> trailers.candidate()
        &&& self.content_type matches Some(value) ==> value.readable() && !value.missing()
        &&& self.content_length matches Some(length) ==> length >= 0
    }

    /// The candidate of a builder that nothing was added to.
    pub open spec fn untouched(self, request: usize, pool: usize, capacity: usize) -> bool {
        &&& self.wf()
        &&& self.request == request
        &&& self.pool == pool
        &&& self.headers.fresh(capacity)
        &&& self.trailer_capacity == capacity
        &&& self.content_type is None
        &&& self.content_length is None
        &&& self.trailers is None
    }

    /// A candidate without headers.
    pub fn new(request: &RequestRefMut, native: &mut NativeState, capacity: usize) -> (result:
        Result<Self, HeaderBuildError>)
        requires
            old(native).requests@.contains_key(request.raw),
            old(native).pool_resolves(request.raw),
        ensures
            *final(native) == (NativeState { pools: final(native).pools, ..*old(native) }),
            match old(native).pool_of(request.raw) {
                Err(error) => {
                    &&& result == Err::<Self, HeaderBuildError>(HeaderBuildError::Request(error))
                    &&& final(native).pools@ == old(native).pools@
                },
                Ok(pool) => match result {
                    Err(error) => {
                        &&& final(native).drew_from(*old(native), pool)
                        &&& list_refused(capacity, old(native).pools@[pool].blocks@, error)
                    },
                    Ok(builder) => {
                        &&& NativeList::capacity_fits(capacity)
                        &&& final(native).drew(*old(native), pool, 1)
                        &&& old(native).pools@[pool].blocks@.len() > 0
                        &&& builder.untouched(request.raw, pool, capacity)
                        &&& builder.expect_trailers is None
                        &&& !builder.clean
                    },
                },
            },
    {
        let address = match request.pool(native) {
            Ok(address) => address,
            Err(error) => return Err(HeaderBuildError::from(error)),
        };
        let headers = match create_list(native, address, capacity) {
            Ok(headers) => headers,
            Err(error) => return Err(error),
        };
        assert(headers.placed_entries() =~= Seq::empty());
        Ok(
            HttpHeadersOutBuilder {
                request: request.raw,
                pool: address,
                headers,
                slots: HeaderSlots::empty(),
                content_type: None,
                content_length: None,
                trailer_capacity: capacity,
                trailers: None,
                expect_trailers: None,
                clean: false,
            },
        )
    }

    /// Whether a key is stored in nginx's dedicated Content-Type field.
    pub open spec fn is_content_type(key: Seq<u8>) -> bool {
        HeaderSlot::ContentType.names(key)
    }

    /// Adds a copied raw output header to the candidate list.
    ///
    /// `Content-Type` is represented by nginx's dedicated output field rather than a list entry.
    /// Content-Length and Transfer-Encoding are rejected because nginx's output filters own
    /// response framing; use [`set_content_length`](Self::set_content_length) for a known length.
    pub fn add(&mut self, native: &mut NativeState, key: &[u8], value: &[u8]) -> (result: Result<
        (),
        HeaderBuildError,
    >)
        requires
            old(self).wf(),
            old(native).pools@.contains_key(old(self).pool),
        ensures
            *final(native) == (NativeState { pools: final(native).pools, ..*old(native) }),
            final(self).wf(),
            final(native).drew_from(*old(native), old(self).pool),
            ({
                let list = old(self).headers;
                let blocks = old(native).pools@[old(self).pool].blocks@;
                if crate::request::header_list::is_framing(key@) {
                    &&& result == Err::<(), HeaderBuildError>(
                        HeaderBuildError::ManagedOutputFraming,
                    )
                    &&& *final(self) == *old(self)
                    &&& final(native).pools@ == old(native).pools@
                } else if Self::is_content_type(key@) {
                    final(self).content_type_set(
                        *old(self),
                        *final(native),
                        *old(native),
                        value@,
                        result,
                    )
                } else {
                    match result {
                        Err(error) => {
                            &&& error == HeaderBuildError::Allocation
                            &&& !list.can_gain(blocks, key@, value@)
                            &&& *final(self) == *old(self)
                        },
                        Ok(_) => {
                            &&& list.can_gain(blocks, key@, value@)
                            &&& final(native).drew(
                                *old(native),
                                old(self).pool,
                                list.gain_blocks(key@),
                            )
                            &&& final(self).headers.gained(list, key@, value@)
                            &&& *final(self) == (HttpHeadersOutBuilder {
                                headers: final(self).headers,
                                slots: final(self).slots,
                                ..*old(self)
                            })
                        },
                    }
                }
            }),
    {
        let ghost before = *self;
        if is_framing_key(key) {
            proof {
                NativePool::lemma_spend(native.pools@[self.pool].blocks@, 0, 0);
                assert(native.pools@ =~= native.pools@.insert(
                    self.pool,
                    native.pools@[self.pool],
                ));
            }
            return Err(HeaderBuildError::ManagedOutputFraming);
        }
        if HeaderSlot::ContentType.is_for(key) {
            return self.set_content_type(native, value);
        }
        let at = match append_to(&mut self.headers, native, self.pool, key, value) {
            Ok(at) => at,
            Err(error) => return Err(error),
        };
        bind_headers_out(&mut self.slots, &self.headers, at);
        proof {
            let list = self.headers;
            assert forall|slot: HeaderSlot| #[trigger]
                self.slots.chain(slot) == (if slot.output() {
                    list.named(slot)
                } else {
                    Seq::empty()
                }) by {
                assert(before.slots.chain(slot) == (if slot.output() {
                    before.headers.named(slot)
                } else {
                    Seq::empty()
                }));
            }
            assert forall|k: int|
                0 <= k
                    < list.placed_entries().len() implies !crate::request::header_list::is_framing(
                (#[trigger] list.placed_entries()[k]).1.key.bytes(),
            ) by {
                if k < before.headers.placed_entries().len() {
                    assert(list.placed_entries().drop_last()[k] == list.placed_entries()[k]);
                } else {
                    assert(list.placed_entries()[k].1.view().key == key@);
                }
            }
        }
        Ok(())
    }

    /// Sets the response Content-Length for nginx's output framing filters.
    pub fn set_content_length(&mut self, length: usize) -> (result: Result<(), HeaderBuildError>)
        requires
            old(self).wf(),
        ensures
            final(self).wf(),
            if length > i64::MAX {
                &&& result == Err::<(), HeaderBuildError>(HeaderBuildError::ContentLengthTooLarge)
                &&& *final(self) == *old(self)
            } else {
                &&& result == Ok::<(), HeaderBuildError>(())
                &&& *final(self) == (HttpHeadersOutBuilder {
                    content_length: Some(length as i64),
                    slots: final(self).slots,
                    ..*old(self)
                })
                &&& final(self).slots.chain(HeaderSlot::ContentLength).len() == 0
            },
    {
        let ghost before = *self;
        if length as u64 > i64::MAX as u64 {
            return Err(HeaderBuildError::ContentLengthTooLarge);
        }
        self.content_length = Some(length as i64);
        self.slots.set(HeaderSlot::ContentLength, Vec::new());
        proof {
            lemma_no_framing(self.headers.placed_entries());
            assert forall|slot: HeaderSlot| #[trigger]
                self.slots.chain(slot) == (if slot.output() {
                    self.headers.named(slot)
                } else {
                    Seq::empty()
                }) by {
                assert(before.slots.chain(slot) == (if slot.output() {
                    before.headers.named(slot)
                } else {
                    Seq::empty()
                }));
            }
        }
        Ok(())
    }

    /// What setting the Content-Type to `value` leads to.
    pub open spec fn content_type_set(
        self,
        before: HttpHeadersOutBuilder,
        native: NativeState,
        native_before: NativeState,
        value: Seq<u8>,
        result: Result<(), HeaderBuildError>,
    ) -> bool {
        let blocks = native_before.pools@[before.pool].blocks@;
        match result {
            Err(error) => {
                &&& error == HeaderBuildError::Allocation
                &&& value.len() == usize::MAX || blocks.len() == 0
                &&& self == before
            },
            Ok(_) => {
                &&& value.len() < usize::MAX
                &&& blocks.len() > 0
                &&& native.drew(native_before, before.pool, 1)
                &&& self == (HttpHeadersOutBuilder { content_type: self.content_type, ..before })
                &&& self.content_type matches Some(copy) && copy.len == value.len() && copy.bytes()
                    == value
            },
        }
    }

    /// Sets the copied nginx output Content-Type field.
    pub fn set_content_type(&mut self, native: &mut NativeState, value: &[u8]) -> (result: Result<
        (),
        HeaderBuildError,
    >)
        requires
            old(self).wf(),
            old(native).pools@.contains_key(old(self).pool),
        ensures
            *final(native) == (NativeState { pools: final(native).pools, ..*old(native) }),
            final(self).wf(),
            final(native).drew_from(*old(native), old(self).pool),
            final(self).content_type_set(
                *old(self),
                *final(native),
                *old(native),
                value@,
                result,
            ),
    {
        let mut pool = native.take_pool(self.pool);
        let copied = copy_pool_bytes(&mut pool, value);
        native.put_pool(self.pool, pool);
        assert(native.pools@ =~= old(native).pools@.insert(self.pool, pool));
        match copied {
            Ok(value) => {
                self.content_type = Some(value);
                Ok(())
            },
            Err(error) => Err(error),
        }
    }
}

/// No slot for a framing header leads to an entry when there are no framing headers.
proof fn lemma_no_framing(entries: Seq<(EntryAt, NativeHeader)>)
    requires
        forall|k: int|
            0 <= k < entries.len() ==> !crate::request::header_list::is_framing(
                (#[trigger] entries[k]).1.key.bytes(),
            ),
    ensures
        NativeList::named_of(entries, HeaderSlot::ContentLength) =~= Seq::<EntryAt>::empty(),
    decreases entries.len(),
{
    if entries.len() > 0 {
        assert(entries.last() == entries[entries.len() - 1]);
        lemma_no_framing(entries.drop_last());
    }
}

impl HttpHeadersOutBuilder {
    /// Whether `source` is the list that candidate trailers start from: the trailers of the
    /// request, or no trailers in a clean response.
    pub open spec fn trailer_source(self, source: NativeList, live: NativeList) -> bool {
        if self.clean {
            source.emptied(live)
        } else {
            source == (NativeList { last: (live.parts@.len() - 1) as usize, ..live })
        }
    }

    /// Whether the candidate trailers were cloned from those of the request.
    pub open spec fn trailers_cloned(
        self,
        before: HttpHeadersOutBuilder,
        source: NativeList,
        live: NativeList,
    ) -> bool {
        &&& before.trailer_source(source, live)
        &&& source.check() is Ok
        &&& self == (HttpHeadersOutBuilder { trailers: self.trailers, ..before })
        &&& self.trailers matches Some(list) && list.cloned_from(
            source,
            source.enabled().len() + before.trailer_capacity,
        )
    }

    /// Whether cloning the trailers of the request was refused.
    pub open spec fn trailers_refused(
        self,
        source: NativeList,
        live: NativeList,
        blocks: Seq<usize>,
        error: HeaderBuildError,
    ) -> bool {
        &&& self.trailer_source(source, live)
        &&& source.clone_refused(self.trailer_capacity, blocks, error)
    }

    /// Gives the builder candidate trailers of its own.
    fn own_trailers(&mut self, native: &mut NativeState) -> (result: Result<(), HeaderBuildError>)
        requires
            old(self).wf(),
            old(self).trailers is None,
            old(native).pools@.contains_key(old(self).pool),
            old(native).requests@.contains_key(old(self).request),
            old(native).requests@[old(self).request].headers_out.trailers.chained(),
            old(native).requests@[old(self).request].headers_out.trailers.faithful(),
        ensures
            *final(native) == (NativeState {
                requests: final(native).requests,
                pools: final(native).pools,
                ..*old(native)
            }),
            final(native).requests@ == old(native).requests@,
            final(native).drew_from(*old(native), old(self).pool),
            final(self).wf(),
            match result {
                Err(error) => {
                    &&& *final(self) == *old(self)
                    &&& exists|source: NativeList| #[trigger]
                        old(self).trailers_refused(
                            source,
                            old(native).requests@[old(self).request].headers_out.trailers,
                            old(native).pools@[old(self).pool].blocks@,
                            error,
                        )
                },
                Ok(_) => {
                    &&& old(native).pools@[old(self).pool].blocks@.len() > 0
                    &&& final(native).drew(*old(native), old(self).pool, 1)
                    &&& exists|source: NativeList| #[trigger]
                        final(self).trailers_cloned(
                            *old(self),
                            source,
                            old(native).requests@[old(self).request].headers_out.trailers,
                        )
                },
            },
    {
        let ghost before = *self;
        let ghost blocks = native.pools@[self.pool].blocks@;
        let mut request = native.take_request(self.request);
        let mut pool = native.take_pool(self.pool);
        let ghost live = request.headers_out.trailers;
        let last = request.headers_out.trailers.last;
        let ghost source;
        let cloned = if self.clean {
            let empty = emptied_list(&request.headers_out.trailers);
            proof {
                source = empty;
            }
            clone_header_list(&mut pool, &empty, self.trailer_capacity)
        } else {
            repair_header_list_last(&mut request.headers_out.trailers);
            proof {
                source = request.headers_out.trailers;
            }
            clone_header_list(&mut pool, &request.headers_out.trailers, self.trailer_capacity)
        };
        request.headers_out.trailers.last = last;
        native.put_pool(self.pool, pool);
        native.put_request(self.request, request);
        proof {
            assert(request == old(native).requests@[self.request]);
            assert(native.requests@ =~= old(native).requests@);
            assert(native.pools@ =~= old(native).pools@.insert(self.pool, pool));
        }
        match cloned {
            Err(error) => {
                assert(before.trailers_refused(source, live, blocks, error));
                Err(error)
            },
            Ok(list) => {
                self.trailers = Some(list);
                assert(self.trailers_cloned(before, source, live));
                Ok(())
            },
        }
    }

    /// Adds a copied raw output trailer to a fresh candidate trailer list.
    pub fn add_trailer(&mut self, native: &mut NativeState, key: &[u8], value: &[u8]) -> (result:
        Result<(), HeaderBuildError>)
        requires
            old(self).wf(),
            old(native).pools@.contains_key(old(self).pool),
            old(native).requests@.contains_key(old(self).request),
            old(native).requests@[old(self).request].headers_out.trailers.chained(),
            old(native).requests@[old(self).request].headers_out.trailers.faithful(),
        ensures
            *final(native) == (NativeState {
                requests: final(native).requests,
                pools: final(native).pools,
                ..*old(native)
            }),
            final(native).requests@ == old(native).requests@,
            final(native).drew_from(*old(native), old(self).pool),
            final(self).wf(),
            ({
                let live = old(native).requests@[old(self).request].headers_out.trailers;
                let blocks = old(native).pools@[old(self).pool].blocks@;
                match old(self).trailers {
                    Some(list) => match result {
                        Err(error) => {
                            &&& error == HeaderBuildError::Allocation
                            &&& !list.can_gain(blocks, key@, value@)
                            &&& *final(self) == *old(self)
                        },
                        Ok(_) => {
                            &&& list.can_gain(blocks, key@, value@)
                            &&& final(self).trailer_added(*old(self), list, key@, value@)
                            &&& final(native).drew(
                                *old(native),
                                old(self).pool,
                                list.gain_blocks(key@),
                            )
                        },
                    },
                    None => match result {
                        Err(error) => {
                            ||| (*final(self) == *old(self) && exists|source: NativeList| #[trigger]
                                old(self).trailers_refused(source, live, blocks, error))
                            ||| (error == HeaderBuildError::Allocation
                                && (exists|source: NativeList| #[trigger]
                                final(self).trailers_cloned(*old(self), source, live))
                                && !final(self).trailers->0.can_gain(
                                NativePool::spend(blocks, 1),
                                key@,
                                value@,
                            ))
                        },
                        Ok(_) => exists|middle: HttpHeadersOutBuilder, source: NativeList| #[trigger]
                            middle.trailers_cloned(*old(self), source, live)
                                && middle.trailers->0.can_gain(
                                NativePool::spend(blocks, 1),
                                key@,
                                value@,
                            ) && final(self).trailer_added(
                                middle,
                                middle.trailers->0,
                                key@,
                                value@,
                            ) && final(native).drew(
                                *old(native),
                                old(self).pool,
                                1 + middle.trailers->0.gain_blocks(key@),
                            ),
                    },
                }
            }),
    {
        let ghost before = *self;
        let ghost live = native.requests@[self.request].headers_out.trailers;
        let ghost blocks = native.pools@[self.pool].blocks@;
        if self.trailers.is_none() {
            match self.own_trailers(native) {
                Ok(_) => {},
                Err(error) => return Err(error),
            }
        }
        proof {
            NativePool::lemma_spend(blocks, 0, 0);
        }
        let ghost middle = *self;
        let ghost left = native.pools@[self.pool].blocks@;
        let mut list = self.trailers.take().unwrap();
        let ghost owned = list;
        let appended = append_to(&mut list, native, self.pool, key, value);
        self.trailers = Some(list);
        proof {
            assert(native.pools@ =~= old(native).pools@.insert(
                self.pool,
                native.pools@[self.pool],
            ));
            crate::request::header_list::lemma_spent_twice(
                native.pools@[self.pool].blocks@,
                left,
                blocks,
            );
            NativePool::lemma_spend(blocks, 1, owned.gain_blocks(key@));
        }
        match appended {
            Ok(_) => {
                self.expect_trailers = Some(true);
                assert(self.trailer_added(middle, middle.trailers->0, key@, value@));
                Ok(())
            },
            Err(error) => {
                assert(*self == middle);
                Err(error)
            },
        }
    }

    /// Whether this builder is `before` with one more trailer behind those in `list`.
    pub open spec fn trailer_added(
        self,
        before: HttpHeadersOutBuilder,
        list: NativeList,
        key: Seq<u8>,
        value: Seq<u8>,
    ) -> bool {
        &&& self == (HttpHeadersOutBuilder {
            trailers: self.trailers,
            expect_trailers: Some(true),
            ..before
        })
        &&& self.trailers matches Some(trailers) && trailers.gained(list, key, value)
    }

    /// The output headers that the candidate leads to, but for the trailers.
    pub open spec fn published(self, before: NativeHeadersOut) -> NativeHeadersOut {
        let kept = if self.clean {
            NativeHeadersOut {
                status: 0,
                status_line: NativeString { len: 0, data: None },
                override_charset: None,
                content_length_n: -1i64,
                content_offset: 0,
                date_time: 0,
                last_modified_time: -1i64,
                ..before
            }
        } else {
            before
        };
        NativeHeadersOut {
            headers: self.headers,
            slots: self.slots,
            content_type_len: match self.content_type {
                Some(value) => value.len,
                None => 0,
            },
            content_type: match self.content_type {
                Some(value) => value,
                None => NativeString { len: 0, data: None },
            },
            charset: NativeString { len: 0, data: None },
            content_type_lowcase: None,
            content_type_hash: 0,
            content_length_n: match self.content_length {
                Some(length) => length,
                None => kept.content_length_n,
            },
            ..kept
        }
    }

    /// Whether a candidate without trailers of its own can go on with the live ones: a clean one
    /// empties their first part, another one takes them as they are.
    pub open spec fn keeps(self, trailers: NativeList) -> bool {
        if self.clean {
            trailers.parts@.len() > 0
        } else {
            trailers.chained()
        }
    }

    /// The output headers that the candidate leads to.
    fn publish(self, before: NativeHeadersOut) -> (result: NativeHeadersOut)
        requires
            self.wf(),
            self.trailers is None ==> self.keeps(before.trailers),
        ensures
            result == (NativeHeadersOut { trailers: result.trailers, ..self.published(before) }),
            match self.trailers {
                Some(list) => result.trailers == list,
                None => self.trailer_source(result.trailers, before.trailers),
            },
    {
        let mut headers_out = before;
        if self.clean {
            headers_out.status = 0;
            headers_out.status_line = NativeString::empty();
            headers_out.override_charset = None;
            headers_out.content_length_n = -1;
            headers_out.content_offset = 0;
            headers_out.date_time = 0;
            headers_out.last_modified_time = -1;
        }
        headers_out.headers = self.headers;
        headers_out.slots = self.slots;
        match self.content_type {
            Some(value) => {
                headers_out.content_type_len = value.len;
                headers_out.content_type = value;
            },
            None => {
                headers_out.content_type_len = 0;
                headers_out.content_type = NativeString::empty();
            },
        }
        headers_out.charset = NativeString::empty();
        headers_out.content_type_lowcase = None;
        headers_out.content_type_hash = 0;
        match self.content_length {
            Some(length) => {
                headers_out.content_length_n = length;
            },
            None => {},
        }
        match self.trailers {
            Some(list) => {
                headers_out.trailers = list;
            },
            None => {
                if self.clean {
                    headers_out.trailers = emptied_list(&headers_out.trailers);
                }
            },
        }
        repair_header_list_last(&mut headers_out.headers);
        repair_header_list_last(&mut headers_out.trailers);
        headers_out
    }

    /// Publishes the complete output-header candidate to the request.
    pub fn commit(self, native: &mut NativeState)
        requires
            self.wf(),
            old(native).requests@.contains_key(self.request),
            self.trailers is None ==> self.keeps(
                old(native).requests@[self.request].headers_out.trailers,
            ),
        ensures
            *final(native) == (NativeState { requests: final(native).requests, ..*old(native) }),
            ({
                let before = old(native).requests@[self.request];
                let after = final(native).requests@[self.request];
                let trailers = after.headers_out.trailers;
                &&& final(native).requests@ == old(native).requests@.insert(self.request, after)
                &&& after == (crate::native::NativeRequest {
                    headers_out: NativeHeadersOut {
                        trailers,
                        ..self.published(before.headers_out)
                    },
                    expect_trailers: match self.expect_trailers {
                        Some(expect) => expect,
                        None => before.expect_trailers,
                    },
                    chunked: if self.content_length is Some {
                        false
                    } else {
                        before.chunked
                    },
                    ..before
                })
                &&& match self.trailers {
                    Some(list) => trailers == list,
                    None => self.trailer_source(trailers, before.headers_out.trailers),
                }
                &&& after.headers_out.slots_match()
                &&& after.headers_out.headers.unframed_entries()
            }),
    {
        let raw = self.request;
        let mut request = native.take_request(raw);
        if self.content_length.is_some() {
            request.chunked = false;
        }
        match self.expect_trailers {
            Some(expect) => {
                request.expect_trailers = expect;
            },
            None => {},
        }
        request.headers_out = self.publish(request.headers_out);
        native.put_request(raw, request);
        assert(native.requests@ =~= old(native).requests@.insert(raw, request));
    }
}

impl NativeList {
    /// Whether no enabled entry of the list belongs to the framing of a message.
    pub open spec fn unframed_entries(self) -> bool {
        forall|k: int|
            0 <= k < self.placed_entries().len() && self.placed_entries()[k].1.hash != 0
                ==> !crate::request::header_list::is_framing(
                (#[trigger] self.placed_entries()[k]).1.key.bytes(),
            )
    }
}

impl RequestRefMut {
    /// Starts constructing a raw replacement input-header list in the request pool.
    ///
    /// The builder reconstructs the list and selected slots, but it does not run nginx's
    /// input-header processors or derive every scalar and flag they own.
    pub fn headers_in_builder(&mut self, native: &mut NativeState, capacity: usize) -> (result:
        Result<HttpHeadersInBuilder, HeaderBuildError>)
        requires
            old(native).requests@.contains_key(old(self).raw),
            old(native).pool_resolves(old(self).raw),
        ensures
            *final(self) == *old(self),
            *final(native) == (NativeState { pools: final(native).pools, ..*old(native) }),
            match old(native).pool_of(old(self).raw) {
                Err(error) => {
                    &&& result == Err::<HttpHeadersInBuilder, HeaderBuildError>(
                        HeaderBuildError::Request(error),
                    )
                    &&& final(native).pools@ == old(native).pools@
                },
                Ok(pool) => match result {
                    Err(error) => {
                        &&& final(native).drew_from(*old(native), pool)
                        &&& list_refused(capacity, old(native).pools@[pool].blocks@, error)
                    },
                    Ok(builder) => {
                        &&& NativeList::capacity_fits(capacity)
                        &&& final(native).drew(*old(native), pool, 1)
                        &&& old(native).pools@[pool].blocks@.len() > 0
                        &&& builder.wf()
                        &&& builder.request == old(self).raw
                        &&& builder.pool == pool
                        &&& builder.headers.headers.fresh(capacity)
                    },
                },
            },
    {
        HttpHeadersInBuilder::new(self, native, capacity)
    }

    /// Starts constructing a complete replacement output-header list in the request pool.
    ///
    /// Response framing must be configured through
    /// [`HttpHeadersOutBuilder::set_content_length`], not raw framing headers.
    pub fn headers_out_builder(&mut self, native: &mut NativeState, capacity: usize) -> (result:
        Result<HttpHeadersOutBuilder, HeaderBuildError>)
        requires
            old(native).requests@.contains_key(old(self).raw),
            old(native).pool_resolves(old(self).raw),
        ensures
            *final(self) == *old(self),
            *final(native) == (NativeState { pools: final(native).pools, ..*old(native) }),
            match old(native).pool_of(old(self).raw) {
                Err(error) => {
                    &&& result == Err::<HttpHeadersOutBuilder, HeaderBuildError>(
                        HeaderBuildError::Request(error),
                    )
                    &&& final(native).pools@ == old(native).pools@
                },
                Ok(pool) => match result {
                    Err(error) => {
                        &&& final(native).drew_from(*old(native), pool)
                        &&& list_refused(capacity, old(native).pools@[pool].blocks@, error)
                    },
                    Ok(builder) => {
                        &&& NativeList::capacity_fits(capacity)
                        &&& final(native).drew(*old(native), pool, 1)
                        &&& old(native).pools@[pool].blocks@.len() > 0
                        &&& builder.untouched(old(self).raw, pool, capacity)
                        &&& builder.expect_trailers is None
                        &&& !builder.clean
                    },
                },
            },
    {
        HttpHeadersOutBuilder::new(self, native, capacity)
    }

    /// Starts constructing a complete output-header candidate with fresh response metadata.
    ///
    /// Unlike [`headers_out_builder`](Self::headers_out_builder), this clears the status,
    /// trailers, and scalar output metadata inherited from the current response. Response framing
    /// must be configured through [`HttpHeadersOutBuilder::set_content_length`], not raw framing
    /// headers.
    pub fn clean_headers_out_builder(&mut self, native: &mut NativeState, capacity: usize) -> (result:
        Result<HttpHeadersOutBuilder, HeaderBuildError>)
        requires
            old(native).requests@.contains_key(old(self).raw),
            old(native).pool_resolves(old(self).raw),
        ensures
            *final(self) == *old(self),
            *final(native) == (NativeState { pools: final(native).pools, ..*old(native) }),
            match old(native).pool_of(old(self).raw) {
                Err(error) => {
                    &&& result == Err::<HttpHeadersOutBuilder, HeaderBuildError>(
                        HeaderBuildError::Request(error),
                    )
                    &&& final(native).pools@ == old(native).pools@
                },
                Ok(pool) => match result {
                    Err(error) => {
                        &&& final(native).drew_from(*old(native), pool)
                        &&& list_refused(capacity, old(native).pools@[pool].blocks@, error)
                    },
                    Ok(builder) => {
                        &&& NativeList::capacity_fits(capacity)
                        &&& final(native).drew(*old(native), pool, 1)
                        &&& old(native).pools@[pool].blocks@.len() > 0
                        &&& builder.untouched(old(self).raw, pool, capacity)
                        &&& builder.expect_trailers == Some(false)
                        &&& builder.clean
                    },
                },
            },
    {
        match HttpHeadersOutBuilder::new(self, native, capacity) {
            Ok(builder) => {
                let mut builder = builder;
                builder.clean = true;
                builder.expect_trailers = Some(false);
                Ok(builder)
            },
            Err(error) => Err(error),
        }
    }

    /// Starts constructing a complete replacement output-trailer list in the request pool.
    pub fn trailers_out_builder(&mut self, native: &mut NativeState, capacity: usize) -> (result:
        Result<HttpTrailersOutBuilder, HeaderBuildError>)
        requires
            old(native).requests@.contains_key(old(self).raw),
            old(native).pool_resolves(old(self).raw),
        ensures
            *final(self) == *old(self),
            *final(native) == (NativeState { pools: final(native).pools, ..*old(native) }),
            match old(native).pool_of(old(self).raw) {
                Err(error) => {
                    &&& result == Err::<HttpTrailersOutBuilder, HeaderBuildError>(
                        HeaderBuildError::Request(error),
                    )
                    &&& final(native).pools@ == old(native).pools@
                },
                Ok(pool) => match result {
                    Err(error) => {
                        &&& final(native).drew_from(*old(native), pool)
                        &&& list_refused(capacity, old(native).pools@[pool].blocks@, error)
                    },
                    Ok(builder) => {
                        &&& NativeList::capacity_fits(capacity)
                        &&& final(native).drew(*old(native), pool, 1)
                        &&& old(native).pools@[pool].blocks@.len() > 0
                        &&& builder.wf()
                        &&& builder.request == old(self).raw
                        &&& builder.pool == pool
                        &&& builder.trailers.fresh(capacity)
                    },
                },
            },
    {
        HttpTrailersOutBuilder::new(self, native, capacity)
    }
}

impl NativeList {
    /// A header that was added to a list is the last of its enabled headers, unless its hash is
    /// zero.
    pub proof fn law_added_header_is_listed(self, before: NativeList, key: Seq<u8>, value: Seq<u8>)
        requires
            self.gained(before, key, value),
        ensures
            self.enabled() == (if crate::request::header_list::hash_lowercase(key) == 0 {
                before.enabled()
            } else {
                before.enabled().push(crate::request::header_list::built_header(key, value))
            }),
    {
        let entry = self.placed_entries().last().1;
        assert(entry.view().hash == entry.hash);
    }
}

} // verus!
