//! Header access through request references.

use vstd::prelude::*;

use crate::native::{NativeRequest, NativeState, NativeString};
use crate::request::header_list::{
    append_pool_header, disable_framing_headers, is_framing_key, repair_header_list_last,
};
use crate::request::header_slots::{HeaderSlot, HeaderSlots, NativeHeadersIn, NativeHeadersOut};
use crate::request::headers::{
    checked_header_list, EntryAt, HeaderListError, HttpHeaderList, HttpHeaderSource, NativeHeader,
    NativeList,
};
use crate::request::view::{checked_ngx_str, RequestError, RequestRef, RequestRefMut};

verus! {

/// Disables the framing entries of the output headers and their Content-Length slot.
pub fn disable_output_framing_headers(headers: &mut NativeHeadersOut) -> (result: Result<
    (),
    HeaderListError,
>)
    requires
        old(headers).headers.chained(),
        old(headers).headers.faithful(),
        old(headers).slots.wf(),
    ensures
        *final(headers) == (NativeHeadersOut {
            headers: final(headers).headers,
            slots: final(headers).slots,
            ..*old(headers)
        }),
        final(headers).slots.wf(),
        ({
            let repaired = NativeList {
                last: (old(headers).headers.parts@.len() - 1) as usize,
                ..old(headers).headers
            };
            match repaired.check() {
                Err(error) => {
                    &&& result == Err::<(), HeaderListError>(error)
                    &&& final(headers).headers == repaired
                    &&& final(headers).slots == old(headers).slots
                },
                Ok(_) => {
                    &&& result == Ok::<(), HeaderListError>(())
                    &&& final(headers).headers.framing_disabled(
                        repaired,
                        repaired.placed_entries().len(),
                    )
                    &&& final(headers).headers.unframed_entries()
                    &&& final(headers).slots.chain(HeaderSlot::ContentLength).len() == 0
                    &&& forall|slot: HeaderSlot|
                        slot != HeaderSlot::ContentLength ==> #[trigger] final(headers).slots.chain(slot) == old(headers).slots.chain(slot)
                },
            }
        }),
{
    match disable_framing_headers(&mut headers.headers, HttpHeaderSource::Output) {
        Ok(_) => {},
        Err(error) => return Err(error),
    }
    headers.slots.set(HeaderSlot::ContentLength, Vec::new());
    Ok(())
}

/// Walk over the keys and values of enabled headers.
#[derive(Debug)]
pub struct NgxListIterator<'header> {
    pub headers: &'header NativeList,
    pub places: Vec<EntryAt>,
    pub index: usize,
}

impl NativeList {
    /// Whether every enabled entry of the list has its strings.
    pub open spec fn enabled_whole(self) -> bool {
        forall|k: int|
            0 <= k < self.placed_entries().len() && self.placed_entries()[k].1.hash != 0 ==> (
            #[trigger] self.placed_entries()[k]).1.whole()
    }

    /// The keys and values of the enabled ones of `entries`.
    pub open spec fn pairs_of(entries: Seq<(EntryAt, NativeHeader)>) -> Seq<(Seq<u8>, Seq<u8>)>
        decreases entries.len(),
    {
        if entries.len() == 0 {
            Seq::empty()
        } else if entries[0].1.hash == 0 {
            Self::pairs_of(entries.drop_first())
        } else {
            seq![(entries[0].1.key.bytes(), entries[0].1.value.bytes())] + Self::pairs_of(
                entries.drop_first(),
            )
        }
    }
}

/// A walk over the enabled headers of a list.
pub fn list_iterator(list: &NativeList) -> (result: NgxListIterator<'_>)
    requires
        list.valid(),
        list.faithful(),
        list.enabled_whole(),
    ensures
        result.wf(),
        result.headers == list,
        result.pending() == NativeList::pairs_of(list.placed_entries()),
{
    assert(list.placed_entries().skip(0) =~= list.placed_entries());
    NgxListIterator { headers: list, places: list.places(), index: 0 }
}

impl<'header> NgxListIterator<'header> {
    /// The keys and values that are still to come.
    pub open spec fn pending(self) -> Seq<(Seq<u8>, Seq<u8>)> {
        NativeList::pairs_of(self.headers.placed_entries().skip(self.index as int))
    }

    /// Whether the walk is over a list that can be read.
    pub open spec fn wf(self) -> bool {
        &&& self.headers.faithful()
        &&& self.headers.enabled_whole()
        &&& self.index <= self.places@.len() == self.headers.placed_entries().len()
        &&& forall|k: int|
            0 <= k < self.places@.len() ==> self.places@[k] == self.headers.placed_entries()[k].0
    }

    /// Key and value of the next enabled header.
    pub fn next(&mut self) -> (result: Option<(&'header [u8], &'header [u8])>)
        requires
            old(self).wf(),
        ensures
            final(self).wf(),
            final(self).headers == old(self).headers,
            match result {
                None => old(self).pending().len() == 0 && final(self).pending().len() == 0,
                Some((key, value)) => {
                    &&& old(self).pending().len() > 0
                    &&& old(self).pending()[0] == (key@, value@)
                    &&& final(self).pending() == old(self).pending().drop_first()
                },
            },
    {
        let ghost entries = self.headers.placed_entries();
        while self.index < self.places.len()
            invariant
                self.wf(),
                entries == self.headers.placed_entries(),
                self.headers == old(self).headers,
                self.pending() == old(self).pending(),
            decreases self.places@.len() - self.index,
        {
            let at = self.places[self.index];
            proof {
                self.headers.lemma_placed(self.index as int);
                assert(entries.skip(self.index as int)[0] == entries[self.index as int]);
                assert(entries.skip(self.index as int).drop_first() =~= entries.skip(
                    self.index + 1,
                ));
                self.headers.lemma_readable(at);
            }
            let headers: &'header NativeList = self.headers;
            let header = headers.get(at);
            self.index = self.index + 1;
            if header.hash != 0 {
                proof {
                    assert(entries[self.index - 1].1.whole());
                    assert(old(self).pending().drop_first() =~= self.pending());
                }
                return Some((header.key.as_bytes(), header.value.as_bytes()));
            }
        }
        assert(entries.skip(self.index as int) =~= Seq::empty());
        None
    }
}

impl NativeHeadersIn {
    /// The entry that the User-Agent slot leads to.
    pub open spec fn user_agent(self) -> Option<EntryAt> {
        let chain = self.slots.chain(HeaderSlot::UserAgent);
        if chain.len() == 0 {
            None
        } else {
            Some(chain[0])
        }
    }
}

impl RequestRef {
    /// Client HTTP User-Agent, when nginx parsed one.
    pub fn user_agent<'a>(&self, native: &'a NativeState) -> (result: Result<
        Option<&'a [u8]>,
        RequestError,
    >)
        requires
            native.requests@.contains_key(self.raw),
            native.requests@[self.raw].headers_in.slots.wf(),
            native.requests@[self.raw].headers_in.headers.faithful(),
            native.requests@[self.raw].headers_in.user_agent() matches Some(at)
                ==> native.requests@[self.raw].headers_in.headers.has(at),
        ensures
            ({
                let headers = native.requests@[self.raw].headers_in;
                match headers.user_agent() {
                    None => result matches Ok(None),
                    Some(at) => {
                        let value = headers.headers.at(at).value;
                        if value.missing() {
                            result matches Err(error) && error == RequestError::MissingStringData
                        } else {
                            result matches Ok(Some(bytes)) && bytes@ == value.bytes()
                        }
                    },
                }
            }),
    {
        let headers = &native.request(self.raw).headers_in;
        let chain = headers.slots.get(HeaderSlot::UserAgent);
        if chain.len() == 0 {
            return Ok(None);
        }
        let at = chain[0];
        proof {
            headers.headers.lemma_readable(at);
        }
        match checked_ngx_str(&headers.headers.get(at).value) {
            Ok(bytes) => Ok(Some(bytes)),
            Err(error) => Err(error),
        }
    }

    /// Returns a checked byte-oriented view over input headers.
    pub fn headers_in<'a>(&self, native: &'a NativeState) -> (result: Result<
        HttpHeaderList<'a>,
        HeaderListError,
    >)
        requires
            native.requests@.contains_key(self.raw),
            native.requests@[self.raw].headers_in.headers.faithful(),
        ensures
            match native.requests@[self.raw].headers_in.headers.check() {
                Err(error) => result matches Err(e) && e == error,
                Ok(_) => result matches Ok(list) && list.wf() && *list.headers
                    == native.requests@[self.raw].headers_in.headers && list.source
                    == HttpHeaderSource::Input,
            },
    {
        checked_header_list(
            &native.request(self.raw).headers_in.headers,
            HttpHeaderSource::Input,
        )
    }

    /// Returns a checked byte-oriented view over output headers.
    pub fn headers_out<'a>(&self, native: &'a NativeState) -> (result: Result<
        HttpHeaderList<'a>,
        HeaderListError,
    >)
        requires
            native.requests@.contains_key(self.raw),
            native.requests@[self.raw].headers_out.headers.faithful(),
        ensures
            match native.requests@[self.raw].headers_out.headers.check() {
                Err(error) => result matches Err(e) && e == error,
                Ok(_) => result matches Ok(list) && list.wf() && *list.headers
                    == native.requests@[self.raw].headers_out.headers && list.source
                    == HttpHeaderSource::Output,
            },
    {
        checked_header_list(
            &native.request(self.raw).headers_out.headers,
            HttpHeaderSource::Output,
        )
    }

    /// Returns a checked byte-oriented view over output trailers.
    pub fn trailers_out<'a>(&self, native: &'a NativeState) -> (result: Result<
        HttpHeaderList<'a>,
        HeaderListError,
    >)
        requires
            native.requests@.contains_key(self.raw),
            native.requests@[self.raw].headers_out.trailers.faithful(),
        ensures
            match native.requests@[self.raw].headers_out.trailers.check() {
                Err(error) => result matches Err(e) && e == error,
                Ok(_) => result matches Ok(list) && list.wf() && *list.headers
                    == native.requests@[self.raw].headers_out.trailers && list.source
                    == HttpHeaderSource::Output,
            },
    {
        checked_header_list(
            &native.request(self.raw).headers_out.trailers,
            HttpHeaderSource::Output,
        )
    }

    /// Walks over input headers.
    ///
    /// Header structural validation and byte-oriented APIs are provided separately.
    pub fn headers_in_iterator<'a>(&self, native: &'a NativeState) -> (result: NgxListIterator<'a>)
        requires
            native.requests@.contains_key(self.raw),
            native.requests@[self.raw].headers_in.headers.valid(),
            native.requests@[self.raw].headers_in.headers.faithful(),
            native.requests@[self.raw].headers_in.headers.enabled_whole(),
        ensures
            result.wf(),
            *result.headers == native.requests@[self.raw].headers_in.headers,
            result.pending() == NativeList::pairs_of(
                native.requests@[self.raw].headers_in.headers.placed_entries(),
            ),
    {
        list_iterator(&native.request(self.raw).headers_in.headers)
    }

    /// Walks over output headers.
    ///
    /// Header structural validation and byte-oriented APIs are provided separately.
    pub fn headers_out_iterator<'a>(&self, native: &'a NativeState) -> (result: NgxListIterator<'a>)
        requires
            native.requests@.contains_key(self.raw),
            native.requests@[self.raw].headers_out.headers.valid(),
            native.requests@[self.raw].headers_out.headers.faithful(),
            native.requests@[self.raw].headers_out.headers.enabled_whole(),
        ensures
            result.wf(),
            *result.headers == native.requests@[self.raw].headers_out.headers,
            result.pending() == NativeList::pairs_of(
                native.requests@[self.raw].headers_out.headers.placed_entries(),
            ),
    {
        list_iterator(&native.request(self.raw).headers_out.headers)
    }
}

impl RequestRefMut {
    /// Client HTTP User-Agent, when nginx parsed one.
    pub fn user_agent<'a>(&self, native: &'a NativeState) -> (result: Result<
        Option<&'a [u8]>,
        RequestError,
    >)
        requires
            native.requests@.contains_key(self.raw),
            native.requests@[self.raw].headers_in.slots.wf(),
            native.requests@[self.raw].headers_in.headers.faithful(),
            native.requests@[self.raw].headers_in.user_agent() matches Some(at)
                ==> native.requests@[self.raw].headers_in.headers.has(at),
        ensures
            ({
                let headers = native.requests@[self.raw].headers_in;
                match headers.user_agent() {
                    None => result matches Ok(None),
                    Some(at) => {
                        let value = headers.headers.at(at).value;
                        if value.missing() {
                            result matches Err(error) && error == RequestError::MissingStringData
                        } else {
                            result matches Ok(Some(bytes)) && bytes@ == value.bytes()
                        }
                    },
                }
            }),
    {
        self.view().user_agent(native)
    }

    /// Returns a checked byte-oriented view over input headers.
    pub fn headers_in<'a>(&self, native: &'a NativeState) -> (result: Result<
        HttpHeaderList<'a>,
        HeaderListError,
    >)
        requires
            native.requests@.contains_key(self.raw),
            native.requests@[self.raw].headers_in.headers.faithful(),
        ensures
            match native.requests@[self.raw].headers_in.headers.check() {
                Err(error) => result matches Err(e) && e == error,
                Ok(_) => result matches Ok(list) && list.wf() && *list.headers
                    == native.requests@[self.raw].headers_in.headers && list.source
                    == HttpHeaderSource::Input,
            },
    {
        self.view().headers_in(native)
    }

    /// Returns a checked byte-oriented view over output headers.
    pub fn headers_out<'a>(&self, native: &'a NativeState) -> (result: Result<
        HttpHeaderList<'a>,
        HeaderListError,
    >)
        requires
            native.requests@.contains_key(self.raw),
            native.requests@[self.raw].headers_out.headers.faithful(),
        ensures
            match native.requests@[self.raw].headers_out.headers.check() {
                Err(error) => result matches Err(e) && e == error,
                Ok(_) => result matches Ok(list) && list.wf() && *list.headers
                    == native.requests@[self.raw].headers_out.headers && list.source
                    == HttpHeaderSource::Output,
            },
    {
        self.view().headers_out(native)
    }

    /// Returns a checked byte-oriented view over output trailers.
    pub fn trailers_out<'a>(&self, native: &'a NativeState) -> (result: Result<
        HttpHeaderList<'a>,
        HeaderListError,
    >)
        requires
            native.requests@.contains_key(self.raw),
            native.requests@[self.raw].headers_out.trailers.faithful(),
        ensures
            match native.requests@[self.raw].headers_out.trailers.check() {
                Err(error) => result matches Err(e) && e == error,
                Ok(_) => result matches Ok(list) && list.wf() && *list.headers
                    == native.requests@[self.raw].headers_out.trailers && list.source
                    == HttpHeaderSource::Output,
            },
    {
        self.view().trailers_out(native)
    }

    /// Walks over input headers.
    pub fn headers_in_iterator<'a>(&self, native: &'a NativeState) -> (result: NgxListIterator<'a>)
        requires
            native.requests@.contains_key(self.raw),
            native.requests@[self.raw].headers_in.headers.valid(),
            native.requests@[self.raw].headers_in.headers.faithful(),
            native.requests@[self.raw].headers_in.headers.enabled_whole(),
        ensures
            result.wf(),
            *result.headers == native.requests@[self.raw].headers_in.headers,
            result.pending() == NativeList::pairs_of(
                native.requests@[self.raw].headers_in.headers.placed_entries(),
            ),
    {
        self.view().headers_in_iterator(native)
    }

    /// Walks over output headers.
    pub fn headers_out_iterator<'a>(&self, native: &'a NativeState) -> (result: NgxListIterator<'a>)
        requires
            native.requests@.contains_key(self.raw),
            native.requests@[self.raw].headers_out.headers.valid(),
            native.requests@[self.raw].headers_out.headers.faithful(),
            native.requests@[self.raw].headers_out.headers.enabled_whole(),
        ensures
            result.wf(),
            *result.headers == native.requests@[self.raw].headers_out.headers,
            result.pending() == NativeList::pairs_of(
                native.requests@[self.raw].headers_out.headers.placed_entries(),
            ),
    {
        self.view().headers_out_iterator(native)
    }

    /// Adds a raw input-header list entry allocated from the request pool.
    ///
    /// This operation does not update nginx's built-in header slots, count, parsing scalars, or
    /// flags.
    pub fn add_header_in(&mut self, native: &mut NativeState, key: &str, value: &str) -> (result:
        Result<(), RequestError>)
        requires
            old(native).requests@.contains_key(old(self).raw),
            old(native).pool_resolves(old(self).raw),
            old(native).requests@[old(self).raw].headers_in.headers.appendable(),
        ensures
            *final(self) == *old(self),
            *final(native) == (NativeState {
                requests: final(native).requests,
                pools: final(native).pools,
                ..*old(native)
            }),
            final(native).requests@ == old(native).requests@.insert(
                old(self).raw,
                (NativeRequest {
                    headers_in: NativeHeadersIn {
                        headers: final(native).requests@[old(self).raw].headers_in.headers,
                        ..old(native).requests@[old(self).raw].headers_in
                    },
                    ..old(native).requests@[old(self).raw]
                }),
            ),
            match old(native).pool_of(old(self).raw) {
                Err(error) => {
                    &&& result == Err::<(), RequestError>(error)
                    &&& final(native).unchanged(*old(native))
                },
                Ok(pool) => list_appended(
                    *old(native),
                    *final(native),
                    pool,
                    old(native).requests@[old(self).raw].headers_in.headers,
                    final(native).requests@[old(self).raw].headers_in.headers,
                    vstd::utf8::encode_utf8(key@),
                    vstd::utf8::encode_utf8(value@),
                    result,
                ),
            },
    {
        let address = match self.pool(native) {
            Ok(address) => address,
            Err(error) => {
                assert(native.requests@ =~= native.requests@.insert(
                    self.raw,
                    native.requests@[self.raw],
                ));
                return Err(error);
            },
        };
        let mut request = native.take_request(self.raw);
        let result = append_raw(
            &mut request.headers_in.headers,
            native,
            address,
            key.as_bytes(),
            value.as_bytes(),
        );
        native.put_request(self.raw, request);
        assert(native.requests@ =~= old(native).requests@.insert(self.raw, request));
        result
    }

    /// Replaces the input headers by a list, with nothing parsed from it.
    pub fn reset_headers_in(&mut self, native: &mut NativeState, headers: NativeList)
        requires
            old(native).requests@.contains_key(old(self).raw),
        ensures
            *final(self) == *old(self),
            *final(native) == (NativeState { requests: final(native).requests, ..*old(native) }),
            ({
                let after = final(native).requests@[old(self).raw].headers_in;
                &&& final(native).requests@ == old(native).requests@.insert(
                    old(self).raw,
                    (NativeRequest { headers_in: after, ..old(native).requests@[old(self).raw] }),
                )
                &&& after.headers == (NativeList { last: 0, ..headers })
                &&& after.slots.wf()
                &&& forall|slot: HeaderSlot| (#[trigger] after.slots.chain(slot)).len() == 0
                &&& after.transfer_encoding@.len() == 0
                &&& after.server == (NativeString { len: 0, data: None })
                &&& after.count == 0
                &&& after.content_length_n == -1
                &&& after.keep_alive_n == -1
                &&& !after.chunked
            }),
    {
        let mut headers = headers;
        headers.last = 0;
        let mut request = native.take_request(self.raw);
        request.headers_in = NativeHeadersIn {
            headers,
            slots: HeaderSlots::empty(),
            transfer_encoding: Vec::new(),
            server: NativeString::empty(),
            count: 0,
            content_length_n: -1,
            keep_alive_n: -1,
            chunked: false,
        };
        native.put_request(self.raw, request);
        assert(native.requests@ =~= old(native).requests@.insert(self.raw, request));
    }

    /// Points the last pointer of the input headers at their last part.
    pub fn repair_headers_in_last(&mut self, native: &mut NativeState)
        requires
            old(native).requests@.contains_key(old(self).raw),
            old(native).requests@[old(self).raw].headers_in.headers.chained(),
        ensures
            *final(self) == *old(self),
            *final(native) == (NativeState { requests: final(native).requests, ..*old(native) }),
            final(native).requests@ == old(native).requests@.insert(
                old(self).raw,
                (NativeRequest {
                    headers_in: NativeHeadersIn {
                        headers: NativeList {
                            last: (old(native).requests@[old(self).raw].headers_in.headers.parts@.len() - 1) as usize,
                            ..old(native).requests@[old(self).raw].headers_in.headers
                        },
                        ..old(native).requests@[old(self).raw].headers_in
                    },
                    ..old(native).requests@[old(self).raw]
                }),
            ),
    {
        let mut request = native.take_request(self.raw);
        repair_header_list_last(&mut request.headers_in.headers);
        native.put_request(self.raw, request);
        assert(native.requests@ =~= old(native).requests@.insert(self.raw, request));
    }

    /// Adds an output header allocated from the request pool.
    ///
    /// Content-Length and Transfer-Encoding are managed through
    /// [`set_content_length_n`](Self::set_content_length_n) and nginx's output filters.
    pub fn add_header_out(&mut self, native: &mut NativeState, key: &str, value: &str) -> (result:
        Result<(), RequestError>)
        requires
            old(native).requests@.contains_key(old(self).raw),
            old(native).pool_resolves(old(self).raw),
            old(native).requests@[old(self).raw].headers_out.headers.appendable(),
        ensures
            *final(self) == *old(self),
            *final(native) == (NativeState {
                requests: final(native).requests,
                pools: final(native).pools,
                ..*old(native)
            }),
            final(native).requests@ == old(native).requests@.insert(
                old(self).raw,
                (NativeRequest {
                    headers_out: NativeHeadersOut {
                        headers: final(native).requests@[old(self).raw].headers_out.headers,
                        ..old(native).requests@[old(self).raw].headers_out
                    },
                    ..old(native).requests@[old(self).raw]
                }),
            ),
            if crate::request::header_list::is_framing(vstd::utf8::encode_utf8(key@)) {
                &&& result == Err::<(), RequestError>(RequestError::ManagedOutputFraming)
                &&& final(native).unchanged(*old(native))
            } else {
                match old(native).pool_of(old(self).raw) {
                    Err(error) => {
                        &&& result == Err::<(), RequestError>(error)
                        &&& final(native).unchanged(*old(native))
                    },
                    Ok(pool) => list_appended(
                        *old(native),
                        *final(native),
                        pool,
                        old(native).requests@[old(self).raw].headers_out.headers,
                        final(native).requests@[old(self).raw].headers_out.headers,
                        vstd::utf8::encode_utf8(key@),
                        vstd::utf8::encode_utf8(value@),
                        result,
                    ),
                }
            },
    {
        assert(native.requests@ =~= native.requests@.insert(self.raw, native.requests@[self.raw]));
        if is_framing_key(key.as_bytes()) {
            return Err(RequestError::ManagedOutputFraming);
        }
        let address = match self.pool(native) {
            Ok(address) => address,
            Err(error) => return Err(error),
        };
        let mut request = native.take_request(self.raw);
        let result = append_raw(
            &mut request.headers_out.headers,
            native,
            address,
            key.as_bytes(),
            value.as_bytes(),
        );
        native.put_request(self.raw, request);
        assert(native.requests@ =~= old(native).requests@.insert(self.raw, request));
        result
    }

    /// Sets the response Content-Length and removes conflicting list framing.
    pub fn set_content_length_n(&mut self, native: &mut NativeState, length: usize) -> (result:
        Result<(), RequestError>)
        requires
            old(native).requests@.contains_key(old(self).raw),
            old(native).requests@[old(self).raw].headers_out.headers.chained(),
            old(native).requests@[old(self).raw].headers_out.headers.faithful(),
            old(native).requests@[old(self).raw].headers_out.slots.wf(),
        ensures
            *final(self) == *old(self),
            *final(native) == (NativeState { requests: final(native).requests, ..*old(native) }),
            ({
                let before = old(native).requests@[old(self).raw];
                let after = final(native).requests@[old(self).raw];
                let repaired = NativeList {
                    last: (before.headers_out.headers.parts@.len() - 1) as usize,
                    ..before.headers_out.headers
                };
                &&& final(native).requests@ == old(native).requests@.insert(old(self).raw, after)
                &&& if length > i64::MAX {
                    &&& result == Err::<(), RequestError>(RequestError::ContentLengthTooLarge)
                    &&& after == before
                } else {
                    match repaired.check() {
                        Err(error) => {
                            &&& result == Err::<(), RequestError>(
                                RequestError::InvalidHeaderList(error),
                            )
                            &&& after == (NativeRequest {
                                headers_out: NativeHeadersOut {
                                    headers: repaired,
                                    ..before.headers_out
                                },
                                ..before
                            })
                        },
                        Ok(_) => {
                            &&& result == Ok::<(), RequestError>(())
                            &&& after == (NativeRequest {
                                headers_out: NativeHeadersOut {
                                    headers: after.headers_out.headers,
                                    slots: after.headers_out.slots,
                                    content_length_n: length as i64,
                                    ..before.headers_out
                                },
                                chunked: false,
                                ..before
                            })
                            &&& after.headers_out.headers.framing_disabled(
                                repaired,
                                repaired.placed_entries().len(),
                            )
                            &&& after.headers_out.headers.unframed_entries()
                            &&& after.headers_out.slots.wf()
                            &&& after.headers_out.slots.chain(HeaderSlot::ContentLength).len() == 0
                            &&& forall|slot: HeaderSlot|
                                slot != HeaderSlot::ContentLength ==> #[trigger]
                                    after.headers_out.slots.chain(slot)
                                    == before.headers_out.slots.chain(slot)
                        },
                    }
                }
            }),
    {
        if length as u64 > i64::MAX as u64 {
            assert(native.requests@ =~= native.requests@.insert(
                self.raw,
                native.requests@[self.raw],
            ));
            return Err(RequestError::ContentLengthTooLarge);
        }
        let mut request = native.take_request(self.raw);
        let disabled = disable_output_framing_headers(&mut request.headers_out);
        let result = match disabled {
            Ok(_) => {
                request.headers_out.content_length_n = length as i64;
                request.chunked = false;
                Ok(())
            },
            Err(error) => Err(RequestError::InvalidHeaderList(error)),
        };
        native.put_request(self.raw, request);
        assert(native.requests@ =~= old(native).requests@.insert(self.raw, request));
        result
    }
}

/// What appending a copied header to a list of a request leads to.
pub open spec fn list_appended(
    before: NativeState,
    after: NativeState,
    pool: usize,
    list_before: NativeList,
    list_after: NativeList,
    key: Seq<u8>,
    value: Seq<u8>,
    result: Result<(), RequestError>,
) -> bool {
    &&& after.drew_from(before, pool)
    &&& match result {
        Err(error) => {
            &&& error == RequestError::Allocation
            &&& !list_before.can_gain(before.pools@[pool].blocks@, key, value)
            &&& list_after == list_before.refused(before.pools@[pool].blocks@, key, value)
        },
        Ok(_) => {
            &&& list_before.can_gain(before.pools@[pool].blocks@, key, value)
            &&& after.drew(before, pool, list_before.gain_blocks(key))
            &&& list_after.gained(list_before, key, value)
            &&& list_after.appendable()
            &&& list_after.last == list_after.parts@.len() - 1
        },
    }
}

/// Appends a copied header to a list of a request.
fn append_raw(
    headers: &mut NativeList,
    native: &mut NativeState,
    pool: usize,
    key: &[u8],
    value: &[u8],
) -> (result: Result<(), RequestError>)
    requires
        old(headers).appendable(),
        old(native).pools@.contains_key(pool),
    ensures
        *final(native) == (NativeState { pools: final(native).pools, ..*old(native) }),
        list_appended(
            *old(native),
            *final(native),
            pool,
            *old(headers),
            *final(headers),
            key@,
            value@,
            result,
        ),
{
    let ghost before = *headers;
    let mut taken = native.take_pool(pool);
    let appended = append_pool_header(headers, &mut taken, key, value);
    native.put_pool(pool, taken);
    assert(native.pools@ =~= old(native).pools@.insert(pool, taken));
    match appended {
        Ok(_) => {
            assert(headers.placed_entries().drop_last() =~= before.placed_entries());
            Ok(())
        },
        Err(_) => Err(RequestError::Allocation),
    }
}

} // verus!
