//! Subrequests: their builder and the state of an awaited one.

use vstd::prelude::*;
use vstd::slice::slice_to_vec;
use vstd::string::StringExecFns;

use crate::native::{NativePool, NativeRequest, NativeState, NativeString, NginxCall, Pointer};
use crate::request::body::NativeBody;
use crate::request::headers::{NativeHeader, NativeList, NativeListPart, HEADER_ENTRY_SIZE};
use crate::request::view::{checked_request_ptr, RequestError, RequestRefMut};
use crate::status::{NGX_ERROR, NGX_OK};
use crate::text::append_number;

verus! {

/// Buffers the response of a subrequest in memory.
pub const NGX_HTTP_SUBREQUEST_IN_MEMORY: usize = 2;

/// The parent waits for the subrequest.
pub const NGX_HTTP_SUBREQUEST_WAITED: usize = 4;

/// The subrequest has the location and the phase state of its parent.
pub const NGX_HTTP_SUBREQUEST_CLONE: usize = 8;

/// The subrequest does not block other requests.
pub const NGX_HTTP_SUBREQUEST_BACKGROUND: usize = 16;

/// Error returned while creating or awaiting a subrequest.
#[derive(Clone, Copy, Debug, PartialEq, Eq, Structural)]
pub enum SubRequestError {
    /// The request pool could not allocate required state.
    Alloc,
    /// Nginx rejected the subrequest with the contained status.
    Create(isize),
    /// The parent or produced request failed validation.
    Request(RequestError),
    /// Nginx released the parent request before the subrequest completed.
    Canceled,
}

impl From<RequestError> for SubRequestError {
    fn from(error: RequestError) -> (result: Self) {
        SubRequestError::Request(error)
    }
}

impl vstd::std_specs::convert::FromSpecImpl<RequestError> for SubRequestError {
    open spec fn obeys_from_spec() -> bool {
        true
    }

    open spec fn from_spec(error: RequestError) -> Self {
        SubRequestError::Request(error)
    }
}

impl SubRequestError {
    /// The text of the error.
    pub open spec fn text(self) -> Seq<char> {
        match self {
            SubRequestError::Alloc => "subrequest allocation failed"@,
            SubRequestError::Create(status) => "subrequest creation failed with status "@
                + crate::text::number(status as int),
            SubRequestError::Request(error) => "invalid request: "@ + error.shown(),
            SubRequestError::Canceled => "subrequest canceled"@,
        }
    }

    /// The text of the error.
    pub fn message(&self) -> (result: String)
        ensures
            result@ == self.text(),
    {
        match self {
            SubRequestError::Alloc => String::from_str("subrequest allocation failed"),
            SubRequestError::Create(status) => {
                let mut text = String::from_str("subrequest creation failed with status ");
                append_number(&mut text, *status);
                text
            },
            SubRequestError::Request(error) => {
                let mut text = String::from_str("invalid request: ");
                error.append_to(&mut text);
                text
            },
            SubRequestError::Canceled => String::from_str("subrequest canceled"),
        }
    }
}

/// Builder for an nginx HTTP subrequest.
///
/// The URI, arguments, and completion handler are owned by the request pool. By default, the
/// subrequest gets an empty input-header list and a separate empty request body.
#[derive(Debug)]
pub struct SubRequestBuilder<H> {
    /// The parent.
    pub request: usize,
    pub uri: NativeString,
    pub args: Option<NativeString>,
    pub flags: usize,
    pub keep_body: bool,
    pub headers_in_capacity: usize,
    pub handler: Option<H>,
}

/// Copies bytes into the pool of a request.
fn copy_string(request: usize, native: &mut NativeState, bytes: &[u8]) -> (result: Result<
    NativeString,
    SubRequestError,
>)
    requires
        old(native).requests@.contains_key(request),
        old(native).pool_resolves(request),
    ensures
        final(native).string_copied(*old(native), request, bytes@, result),
{
    let parent = RequestRefMut { raw: request };
    let address = match parent.pool(native) {
        Ok(address) => address,
        Err(error) => return Err(SubRequestError::from(error)),
    };
    let mut pool = native.take_pool(address);
    proof {
        NativePool::lemma_spend(pool.blocks@, 1, 0);
    }
    let block = pool.allocate();
    native.put_pool(address, pool);
    assert(native.pools@ =~= old(native).pools@.insert(address, pool));
    if block.is_none() {
        return Err(SubRequestError::Alloc);
    }
    let data = slice_to_vec(bytes);
    let copy = NativeString { len: bytes.len(), data: Some(data) };
    assert(copy.bytes() =~= bytes@);
    Ok(copy)
}

impl NativeState {
    /// What copying a string into the pool of a request makes of `before`.
    pub open spec fn string_copied(
        self,
        before: NativeState,
        request: usize,
        bytes: Seq<u8>,
        result: Result<NativeString, SubRequestError>,
    ) -> bool {
        &&& self == (NativeState { pools: self.pools, ..before })
        &&& match before.pool_of(request) {
            Err(error) => {
                &&& result matches Err(e) && e == SubRequestError::Request(error)
                &&& self.pools@ == before.pools@
            },
            Ok(pool) => if before.pools@[pool].blocks@.len() == 0 {
                &&& result matches Err(e) && e == SubRequestError::Alloc
                &&& self.drew_from(before, pool)
            } else {
                &&& result matches Ok(copy) && copy.readable() && !copy.missing() && copy.bytes()
                    == bytes && copy.len == bytes.len()
                &&& self.drew(before, pool, 1)
            },
        }
    }
}

impl<H> SubRequestBuilder<H> {
    /// Create a builder for `uri`.
    pub fn new(request: &RequestRefMut, native: &mut NativeState, uri: &str) -> (result: Result<
        Self,
        SubRequestError,
    >)
        requires
            old(native).requests@.contains_key(request.raw),
            old(native).pool_resolves(request.raw),
        ensures
            match result {
                Err(error) => final(native).string_copied(
                    *old(native),
                    request.raw,
                    vstd::utf8::encode_utf8(uri@),
                    Err(error),
                ),
                Ok(builder) => {
                    &&& final(native).string_copied(
                        *old(native),
                        request.raw,
                        vstd::utf8::encode_utf8(uri@),
                        Ok(builder.uri),
                    )
                    &&& builder == (SubRequestBuilder {
                        request: request.raw,
                        uri: builder.uri,
                        args: None,
                        flags: 0,
                        keep_body: false,
                        headers_in_capacity: 4,
                        handler: None::<H>,
                    })
                },
            },
    {
        match copy_string(request.raw, native, uri.as_bytes()) {
            Ok(uri) => Ok(
                SubRequestBuilder {
                    request: request.raw,
                    uri,
                    args: None,
                    flags: 0,
                    keep_body: false,
                    headers_in_capacity: 4,
                    handler: None,
                },
            ),
            Err(error) => Err(error),
        }
    }

    /// Set the subrequest query string.
    pub fn args(self, native: &mut NativeState, args: &str) -> (result: Result<
        Self,
        SubRequestError,
    >)
        requires
            old(native).requests@.contains_key(self.request),
            old(native).pool_resolves(self.request),
        ensures
            match result {
                Err(error) => final(native).string_copied(
                    *old(native),
                    self.request,
                    vstd::utf8::encode_utf8(args@),
                    Err(error),
                ),
                Ok(builder) => {
                    &&& builder.args is Some
                    &&& final(native).string_copied(
                        *old(native),
                        self.request,
                        vstd::utf8::encode_utf8(args@),
                        Ok(builder.args->0),
                    )
                    &&& builder == (SubRequestBuilder { args: builder.args, ..self })
                },
            },
    {
        match copy_string(self.request, native, args.as_bytes()) {
            Ok(args) => {
                let mut builder = self;
                builder.args = Some(args);
                Ok(builder)
            },
            Err(error) => Err(error),
        }
    }

    /// Run `handler` after nginx finalizes the subrequest.
    pub fn handler<HT>(self, handler: HT) -> (result: SubRequestBuilder<HT>)
        ensures
            result == (SubRequestBuilder {
                request: self.request,
                uri: self.uri,
                args: self.args,
                flags: self.flags,
                keep_body: self.keep_body,
                headers_in_capacity: self.headers_in_capacity,
                handler: Some(handler),
            }),
    {
        SubRequestBuilder {
            request: self.request,
            uri: self.uri,
            args: self.args,
            flags: self.flags,
            keep_body: self.keep_body,
            headers_in_capacity: self.headers_in_capacity,
            handler: Some(handler),
        }
    }

    /// Buffer the subrequest response in memory.
    pub fn in_memory(self) -> (result: Self)
        ensures
            result == (SubRequestBuilder {
                flags: self.flags | NGX_HTTP_SUBREQUEST_IN_MEMORY,
                ..self
            }),
    {
        let mut builder = self;
        builder.flags = builder.flags | NGX_HTTP_SUBREQUEST_IN_MEMORY;
        builder
    }

    /// Mark the subrequest as waited by its parent.
    pub fn waited(self) -> (result: Self)
        ensures
            result == (SubRequestBuilder { flags: self.flags | NGX_HTTP_SUBREQUEST_WAITED, ..self }),
    {
        let mut builder = self;
        builder.flags = builder.flags | NGX_HTTP_SUBREQUEST_WAITED;
        builder
    }

    /// Clone the parent request location and phase state.
    pub fn cloned(self) -> (result: Self)
        ensures
            result == (SubRequestBuilder { flags: self.flags | NGX_HTTP_SUBREQUEST_CLONE, ..self }),
    {
        let mut builder = self;
        builder.flags = builder.flags | NGX_HTTP_SUBREQUEST_CLONE;
        builder
    }

    /// Run the subrequest without blocking other requests.
    pub fn background(self) -> (result: Self)
        ensures
            result == (SubRequestBuilder {
                flags: self.flags | NGX_HTTP_SUBREQUEST_BACKGROUND,
                ..self
            }),
    {
        let mut builder = self;
        builder.flags = builder.flags | NGX_HTTP_SUBREQUEST_BACKGROUND;
        builder
    }

    /// Keep the parent's request body instead of installing an empty body.
    pub fn keep_body(self) -> (result: Self)
        ensures
            result == (SubRequestBuilder { keep_body: true, ..self }),
    {
        let mut builder = self;
        builder.keep_body = true;
        builder
    }

    /// Set the initial input-header capacity.
    ///
    /// A capacity of zero preserves the parent's shallow-copied headers for read-only access.
    pub fn init_headers_in(self, capacity: usize) -> (result: Self)
        ensures
            result == (SubRequestBuilder { headers_in_capacity: capacity, ..self }),
    {
        let mut builder = self;
        builder.headers_in_capacity = capacity;
        builder
    }
}

/// Each flag of a subrequest is set by its own method alone, whatever else was set.
pub proof fn law_subrequest_flags_are_independent(flags: usize)
    ensures
        (flags | NGX_HTTP_SUBREQUEST_IN_MEMORY) & NGX_HTTP_SUBREQUEST_IN_MEMORY
            == NGX_HTTP_SUBREQUEST_IN_MEMORY,
        (flags | NGX_HTTP_SUBREQUEST_WAITED) & NGX_HTTP_SUBREQUEST_WAITED
            == NGX_HTTP_SUBREQUEST_WAITED,
        (flags | NGX_HTTP_SUBREQUEST_CLONE) & NGX_HTTP_SUBREQUEST_CLONE
            == NGX_HTTP_SUBREQUEST_CLONE,
        (flags | NGX_HTTP_SUBREQUEST_BACKGROUND) & NGX_HTTP_SUBREQUEST_BACKGROUND
            == NGX_HTTP_SUBREQUEST_BACKGROUND,
        (flags | NGX_HTTP_SUBREQUEST_IN_MEMORY) & !NGX_HTTP_SUBREQUEST_IN_MEMORY == flags
            & !NGX_HTTP_SUBREQUEST_IN_MEMORY,
        (flags | NGX_HTTP_SUBREQUEST_WAITED) & !NGX_HTTP_SUBREQUEST_WAITED == flags
            & !NGX_HTTP_SUBREQUEST_WAITED,
        (flags | NGX_HTTP_SUBREQUEST_CLONE) & !NGX_HTTP_SUBREQUEST_CLONE == flags
            & !NGX_HTTP_SUBREQUEST_CLONE,
        (flags | NGX_HTTP_SUBREQUEST_BACKGROUND) & !NGX_HTTP_SUBREQUEST_BACKGROUND == flags
            & !NGX_HTTP_SUBREQUEST_BACKGROUND,
{
    assert((flags | 2usize) & 2usize == 2usize) by (bit_vector);
    assert((flags | 4usize) & 4usize == 4usize) by (bit_vector);
    assert((flags | 8usize) & 8usize == 8usize) by (bit_vector);
    assert((flags | 16usize) & 16usize == 16usize) by (bit_vector);
    assert((flags | 2usize) & !2usize == flags & !2usize) by (bit_vector);
    assert((flags | 4usize) & !4usize == flags & !4usize) by (bit_vector);
    assert((flags | 8usize) & !8usize == flags & !8usize) by (bit_vector);
    assert((flags | 16usize) & !16usize == flags & !16usize) by (bit_vector);
}

/// A subrequest that is ready to be created.
#[derive(Debug)]
pub struct PendingSubRequest<H> {
    /// The parent.
    pub request: usize,
    pub uri: NativeString,
    pub args: Option<NativeString>,
    pub flags: usize,
    /// Whether an empty body was prepared.
    pub empty_body: bool,
    /// The empty input-header list that was prepared.
    pub headers_in: Option<NativeList>,
    pub handler: Option<H>,
}

/// How the creation of a subrequest ended.
#[derive(Debug)]
pub struct SubRequestCreation<H> {
    pub result: Result<RequestRefMut, SubRequestError>,
    /// The handler, once nginx is to run it.
    pub handler: Option<H>,
}

impl<H> SubRequestBuilder<H> {
    /// Blocks that the body takes.
    pub open spec fn body_blocks(self) -> nat {
        if self.keep_body {
            0
        } else {
            1
        }
    }

    /// Blocks that the input-header list takes.
    pub open spec fn list_blocks(self) -> nat {
        if self.headers_in_capacity == 0 {
            0
        } else {
            1
        }
    }

    /// Blocks that the handler takes: its cleanup entry, its storage and the post-subrequest
    /// structure.
    pub open spec fn handler_blocks(self) -> nat {
        if self.handler is None {
            0
        } else {
            3
        }
    }

    /// Whether a list of the asked capacity can be described.
    pub open spec fn capacity_fits(self) -> bool {
        self.headers_in_capacity * HEADER_ENTRY_SIZE <= usize::MAX
    }

    /// Prepares the subrequest. Nginx is then to be called, and its answer handed to
    /// [`PendingSubRequest::finish`].
    pub fn build(self, native: &mut NativeState) -> (result: Result<
        PendingSubRequest<H>,
        SubRequestError,
    >)
        requires
            old(native).requests@.contains_key(self.request),
            old(native).pool_resolves(self.request),
        ensures
            *final(native) == (NativeState { pools: final(native).pools, ..*old(native) }),
            match old(native).pool_of(self.request) {
                Err(error) => {
                    &&& result matches Err(e) && e == SubRequestError::Request(error)
                    &&& final(native).pools@ == old(native).pools@
                },
                Ok(pool) => {
                    let needed = self.body_blocks() + self.list_blocks() + self.handler_blocks();
                    let enough = self.capacity_fits() && old(native).pools@[pool].blocks@.len()
                        >= needed;
                    &&& final(native).drew_from(*old(native), pool)
                    &&& match result {
                        Err(error) => !enough && error == SubRequestError::Alloc,
                        Ok(pending) => {
                            &&& enough
                            &&& final(native).drew(*old(native), pool, needed)
                            &&& pending == (PendingSubRequest {
                                request: self.request,
                                uri: self.uri,
                                args: self.args,
                                flags: self.flags,
                                empty_body: !self.keep_body,
                                headers_in: pending.headers_in,
                                handler: self.handler,
                            })
                            &&& match pending.headers_in {
                                None => self.headers_in_capacity == 0,
                                Some(list) => self.headers_in_capacity > 0 && list.fresh(
                                    self.headers_in_capacity,
                                ),
                            }
                        },
                    }
                },
            },
    {
        let parent = RequestRefMut { raw: self.request };
        let address = match parent.pool(native) {
            Ok(address) => address,
            Err(error) => return Err(SubRequestError::from(error)),
        };
        let mut pool = native.take_pool(address);
        let prepared = self.prepare(&mut pool);
        native.put_pool(address, pool);
        assert(native.pools@ =~= old(native).pools@.insert(address, pool));
        prepared
    }

    /// Prepares the parts of the subrequest that the pool owns.
    fn prepare(self, pool: &mut NativePool) -> (result: Result<
        PendingSubRequest<H>,
        SubRequestError,
    >)
        ensures
            *final(pool) == (NativePool { blocks: final(pool).blocks, ..*old(pool) }),
            NativePool::spent_from(final(pool).blocks@, old(pool).blocks@),
            ({
                let needed = self.body_blocks() + self.list_blocks() + self.handler_blocks();
                let enough = self.capacity_fits() && old(pool).blocks@.len() >= needed;
                match result {
                    Err(error) => !enough && error == SubRequestError::Alloc,
                    Ok(pending) => {
                        &&& enough
                        &&& final(pool).blocks@ == NativePool::spend(old(pool).blocks@, needed)
                        &&& pending == (PendingSubRequest {
                            request: self.request,
                            uri: self.uri,
                            args: self.args,
                            flags: self.flags,
                            empty_body: !self.keep_body,
                            headers_in: pending.headers_in,
                            handler: self.handler,
                        })
                        &&& match pending.headers_in {
                            None => self.headers_in_capacity == 0,
                            Some(list) => self.headers_in_capacity > 0 && list.fresh(
                                self.headers_in_capacity,
                            ),
                        }
                    },
                }
            }),
    {
        let ghost blocks = pool.blocks@;
        let ghost body = self.body_blocks();
        let ghost list = self.list_blocks();
        proof {
            NativePool::lemma_spend(blocks, 0, 0);
            NativePool::lemma_spend(blocks, body, list);
            NativePool::lemma_spend(blocks, body + list, 1);
            NativePool::lemma_spend(blocks, body + list + 1, 1);
            NativePool::lemma_spend(blocks, body + list + 2, 1);
        }
        if !self.keep_body && pool.allocate().is_none() {
            return Err(SubRequestError::Alloc);
        }
        let headers_in = if self.headers_in_capacity == 0 {
            None
        } else {
            if self.headers_in_capacity.checked_mul(HEADER_ENTRY_SIZE).is_none() {
                return Err(SubRequestError::Alloc);
            }
            if pool.allocate().is_none() {
                return Err(SubRequestError::Alloc);
            }
            let entries: Vec<NativeHeader> = Vec::new();
            let mut parts: Vec<NativeListPart> = Vec::new();
            parts.push(NativeListPart { elts: Some(entries), nelts: 0, next: None });
            let headers = NativeList {
                parts,
                last: 0,
                size: HEADER_ENTRY_SIZE,
                nalloc: self.headers_in_capacity,
            };
            proof {
                headers.lemma_empty();
            }
            Some(headers)
        };
        if self.handler.is_some() {
            if pool.allocate().is_none() {
                return Err(SubRequestError::Alloc);
            }
            if pool.allocate().is_none() {
                return Err(SubRequestError::Alloc);
            }
            if pool.allocate().is_none() {
                return Err(SubRequestError::Alloc);
            }
        }
        Ok(
            PendingSubRequest {
                request: self.request,
                uri: self.uri,
                args: self.args,
                flags: self.flags,
                empty_body: !self.keep_body,
                headers_in,
                handler: self.handler,
            },
        )
    }
}

impl<H> PendingSubRequest<H> {
    /// The call that creates the subrequest.
    pub fn call(&self) -> (result: NginxCall)
        ensures
            result == (NginxCall::HttpSubrequest { request: self.request, flags: self.flags }),
    {
        NginxCall::HttpSubrequest { request: self.request, flags: self.flags }
    }

    /// What a created subrequest has in place of its parent's body and headers.
    pub open spec fn installed(self, before: NativeRequest, after: NativeRequest) -> bool {
        let headers = after.headers_in;
        &&& after == (NativeRequest {
            request_body: after.request_body,
            headers_in: after.headers_in,
            ..before
        })
        &&& if self.empty_body {
            after.request_body matches Pointer::To(body) && body == (NativeBody {
                bufs: Pointer::Null,
                temp_file: false,
            })
        } else {
            after.request_body == before.request_body
        }
        &&& match self.headers_in {
            Some(list) => {
                &&& headers.headers == (NativeList { last: 0, ..list })
                &&& headers.slots.wf()
                &&& forall|slot: crate::request::header_slots::HeaderSlot|
                    (#[trigger] headers.slots.chain(slot)).len() == 0
                &&& headers.transfer_encoding@.len() == 0
                &&& headers.server == (NativeString { len: 0, data: None })
                &&& headers.count == 0
                &&& headers.content_length_n == -1
                &&& headers.keep_alive_n == -1
                &&& !headers.chunked
            },
            None => headers == (crate::request::header_slots::NativeHeadersIn {
                headers: NativeList {
                    last: (before.headers_in.headers.parts@.len() - 1) as usize,
                    ..before.headers_in.headers
                },
                ..before.headers_in
            }),
        }
    }

    /// Goes on with what nginx answered: its status and the subrequest that it created.
    ///
    /// A rejected handler is dropped at once.
    pub fn finish(self, native: &mut NativeState, status: isize, subrequest: usize) -> (result:
        SubRequestCreation<H>)
        requires
            old(native).resolves(subrequest),
            status == NGX_OK && old(native).checked_request(subrequest) is Ok && self.headers_in is None
                ==> old(native).requests@[subrequest].headers_in.headers.chained(),
        ensures
            *final(native) == (NativeState { requests: final(native).requests, ..*old(native) }),
            if status != NGX_OK {
                &&& result.result == Err::<RequestRefMut, SubRequestError>(
                    SubRequestError::Create(status),
                )
                &&& result.handler is None
                &&& final(native).requests@ == old(native).requests@
            } else {
                &&& result.handler == self.handler
                &&& match old(native).checked_request(subrequest) {
                    Err(error) => {
                        &&& result.result == Err::<RequestRefMut, SubRequestError>(
                            SubRequestError::Request(error),
                        )
                        &&& final(native).requests@ == old(native).requests@
                    },
                    Ok(raw) => {
                        let after = final(native).requests@[raw];
                        &&& result.result == Ok::<RequestRefMut, SubRequestError>(
                            (RequestRefMut { raw }),
                        )
                        &&& final(native).requests@ == old(native).requests@.insert(raw, after)
                        &&& self.installed(old(native).requests@[raw], after)
                    },
                }
            },
    {
        if status != NGX_OK {
            return SubRequestCreation { result: Err(SubRequestError::Create(status)), handler: None };
        }
        let raw = match checked_request_ptr(native, subrequest) {
            Ok(raw) => raw,
            Err(error) => return SubRequestCreation {
                result: Err(SubRequestError::from(error)),
                handler: self.handler,
            },
        };
        if self.empty_body {
            let mut request = native.take_request(raw);
            request.request_body = Pointer::To(
                NativeBody { bufs: Pointer::Null, temp_file: false },
            );
            native.put_request(raw, request);
        }
        let mut child = RequestRefMut { raw };
        match self.headers_in {
            Some(headers) => child.reset_headers_in(native, headers),
            None => child.repair_headers_in_last(native),
        }
        assert(native.requests@ =~= old(native).requests@.insert(raw, native.requests@[raw]));
        SubRequestCreation { result: Ok(child), handler: self.handler }
    }
}

/// What completes a subrequest.
#[derive(Clone, Copy, Debug, PartialEq, Eq)]
pub enum SubRequestCompletion<H> {
    /// The handler is to run on the subrequest, and nginx gets the status that it answers.
    Run(H),
    /// Nginx gets a status.
    Answer(isize),
}

/// What completes a subrequest whose handler lies in `data`, and what is left of the storage.
pub open spec fn handler_taken<H>(data: Pointer<Option<H>>, status: isize) -> (
    SubRequestCompletion<H>,
    Pointer<Option<H>>,
) {
    match data {
        Pointer::To(Some(handler)) => (SubRequestCompletion::Run(handler), Pointer::To(None)),
        Pointer::To(None) => (SubRequestCompletion::Answer(status), Pointer::To(None)),
        _ => (SubRequestCompletion::Answer(NGX_ERROR), data),
    }
}

/// A handler runs once: whatever the storage held, what is left of it runs no handler.
pub proof fn law_handler_runs_once<H>(data: Pointer<Option<H>>, first: isize, second: isize)
    ensures
        handler_taken(handler_taken(data, first).1, second).0 is Answer,
        data is To ==> handler_taken(handler_taken(data, first).1, second).0
            == SubRequestCompletion::<H>::Answer(second),
{
}

/// Takes the completion handler of a subrequest out of its storage, given the status that nginx
/// finalized the subrequest with.
///
/// A handler is handed out once; without it, nginx gets its own status back. Storage that cannot be
/// read answers [`NGX_ERROR`].
pub fn run_handler<H>(data: &mut Pointer<Option<H>>, status: isize) -> (result:
    SubRequestCompletion<H>)
    ensures
        (result, *final(data)) == handler_taken(*old(data), status),
{
    match data {
        Pointer::To(stored) => match stored.take() {
            Some(handler) => SubRequestCompletion::Run(handler),
            None => SubRequestCompletion::Answer(status),
        },
        _ => SubRequestCompletion::Answer(NGX_ERROR),
    }
}

/// State that an awaited subrequest shares with its completion handler.
#[derive(Debug)]
pub struct AsyncSubRequestState<T, W> {
    pub output: Option<Result<T, SubRequestError>>,
    /// Who is to be woken.
    pub waker: Option<W>,
    pub consumed: bool,
    pub canceled: bool,
}

impl<T, W> AsyncSubRequestState<T, W> {
    /// Whether a completion would be kept.
    pub open spec fn open(self) -> bool {
        !self.canceled && !self.consumed && self.output is None
    }

    /// The state of a subrequest that has not completed.
    pub fn new() -> (result: Self)
        ensures
            result == (AsyncSubRequestState {
                output: None::<Result<T, SubRequestError>>,
                waker: None::<W>,
                consumed: false,
                canceled: false,
            }),
    {
        AsyncSubRequestState { output: None, waker: None, consumed: false, canceled: false }
    }

    /// Keeps the first completion, and hands out who is to be woken.
    pub fn complete(&mut self, output: Result<T, SubRequestError>) -> (result: Option<W>)
        ensures
            if old(self).open() {
                &&& result == old(self).waker
                &&& *final(self) == (AsyncSubRequestState {
                    output: Some(output),
                    waker: None::<W>,
                    ..*old(self)
                })
            } else {
                &&& result is None
                &&& *final(self) == *old(self)
            },
    {
        if self.canceled || self.consumed || self.output.is_some() {
            return None;
        }
        self.output = Some(output);
        self.waker.take()
    }

    /// Takes the completion, or remembers who is to be woken by it.
    pub fn poll(&mut self, waker: W) -> (result: Option<Result<T, SubRequestError>>)
        requires
            !old(self).consumed,
        ensures
            match old(self).output {
                Some(output) => {
                    &&& result == Some(output)
                    &&& *final(self) == (AsyncSubRequestState {
                        output: None::<Result<T, SubRequestError>>,
                        consumed: true,
                        ..*old(self)
                    })
                },
                None => {
                    &&& result is None
                    &&& *final(self) == (AsyncSubRequestState { waker: Some(waker), ..*old(self) })
                },
            },
    {
        match self.output.take() {
            Some(output) => {
                self.consumed = true;
                Some(output)
            },
            None => {
                self.waker = Some(waker);
                None
            },
        }
    }

    /// Gives up the delivery of a completion that was not taken.
    pub fn cancel(&mut self)
        ensures
            *final(self) == (if old(self).consumed {
                *old(self)
            } else {
                AsyncSubRequestState {
                    output: None::<Result<T, SubRequestError>>,
                    waker: None::<W>,
                    canceled: true,
                    ..*old(self)
                }
            }),
    {
        if self.consumed {
            return;
        }
        self.canceled = true;
        self.output = None;
        self.waker = None;
    }

    /// Whether the completion handler is to run.
    pub fn accepts_completion(&self) -> (result: bool)
        ensures
            result == !self.canceled,
    {
        !self.canceled
    }

    /// Completes a subrequest whose handler ran, and hands out who is to be woken.
    pub fn finish(&mut self, output: T) -> (result: Option<W>)
        ensures
            if old(self).open() {
                &&& result == old(self).waker
                &&& *final(self) == (AsyncSubRequestState {
                    output: Some(Ok::<T, SubRequestError>(output)),
                    waker: None::<W>,
                    ..*old(self)
                })
            } else {
                &&& result is None
                &&& *final(self) == *old(self)
            },
    {
        self.complete(Ok(output))
    }

    /// Completes a subrequest whose handler was dropped without running, and hands out who is to
    /// be woken.
    pub fn abandon(&mut self) -> (result: Option<W>)
        ensures
            if old(self).open() {
                &&& result == old(self).waker
                &&& *final(self) == (AsyncSubRequestState {
                    output: Some(Err::<T, SubRequestError>(SubRequestError::Canceled)),
                    waker: None::<W>,
                    ..*old(self)
                })
            } else {
                &&& result is None
                &&& *final(self) == *old(self)
            },
    {
        self.complete(Err(SubRequestError::Canceled))
    }
}

/// A completed, consumed or canceled subrequest keeps no further completion: none of the steps of
/// its state opens it again.
pub proof fn law_async_state_completes_once<T, W>(
    before: AsyncSubRequestState<T, W>,
    waker: W,
)
    requires
        !before.open(),
    ensures
        !(AsyncSubRequestState { waker: Some(waker), ..before }).open(),
        !(AsyncSubRequestState {
            output: None::<Result<T, SubRequestError>>,
            consumed: true,
            ..before
        }).open(),
        !(AsyncSubRequestState {
            output: None::<Result<T, SubRequestError>>,
            waker: None::<W>,
            canceled: true,
            ..before
        }).open(),
{
}

} // verus!
