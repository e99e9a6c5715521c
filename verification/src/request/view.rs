//! Checked views of a request.

use vstd::prelude::*;

use crate::buffer::PoolChain;
use crate::native::{
    is_aligned, ConnectionError, HttpConfigError, ModuleDescriptor,
    NativeConnection, NativeRequest, NativeState, NativeString, NginxCall, Pointer,
    NGX_HTTP_MAX_SUBREQUESTS, NGX_HTTP_MODULE,
};
use crate::request::header_slots::NativeHeadersOut;
use crate::request::headers::HeaderListError;
use crate::status::HTTPStatus;
use crate::upstream::state::{UpstreamStateError, UpstreamStates};

verus! {

/// Failure returned while creating or using a checked HTTP request view.
#[derive(Clone, Copy, Debug, PartialEq, Eq, Structural)]
pub enum RequestError {
    /// The request pointer is null.
    NullRequest,
    /// The request pointer does not satisfy the request alignment.
    MisalignedRequest,
    /// The pointed value is not an initialized HTTP request.
    InvalidRequestSignature,
    /// The request does not identify a main request.
    MissingMain,
    /// The main request pointer does not satisfy the request alignment.
    MisalignedMain,
    /// The main request does not have a valid HTTP request signature.
    InvalidMainSignature,
    /// The main request is not the root of this request's parent chain.
    ForeignMain,
    /// The request has no pool.
    MissingPool,
    /// The native main-request reference count cannot retain another lifecycle owner.
    ReferenceCountOverflow,
    /// The request pool pointer does not satisfy the pool alignment.
    MisalignedPool,
    /// An output chain belongs to a different nginx pool.
    ForeignPool,
    /// The client connection is invalid.
    Connection(ConnectionError),
    /// A native request string has a nonzero length but no data pointer.
    MissingStringData,
    /// A native request timestamp cannot be represented as an unsigned value.
    NegativeStartTime,
    /// A native request counter cannot be represented as an unsigned value.
    NegativeCounter,
    /// A response content length cannot be represented by nginx's file offset.
    ContentLengthTooLarge,
    /// Content-Length and Transfer-Encoding are owned by nginx's output framing filters.
    ManagedOutputFraming,
    /// The output-header list is not safe to update.
    InvalidHeaderList(HeaderListError),
    /// Nginx could not allocate request-pool storage.
    Allocation,
}

impl From<ConnectionError> for RequestError {
    fn from(error: ConnectionError) -> (result: Self) {
        RequestError::Connection(error)
    }
}

impl vstd::std_specs::convert::FromSpecImpl<ConnectionError> for RequestError {
    open spec fn obeys_from_spec() -> bool {
        true
    }

    open spec fn from_spec(error: ConnectionError) -> Self {
        RequestError::Connection(error)
    }
}

/// Longest parent chain between a subrequest and its main request.
pub const MAX_SUBREQUEST_PARENT_EDGES: usize = NGX_HTTP_MAX_SUBREQUESTS + 1;

/// Highest main-request count a hold may publish; nginx reserves the remaining 1,000.
pub const MAX_REQUEST_COUNT_AFTER_HOLD: u16 = 65535 - 1000;

/// Shared access to an HTTP request.
#[derive(Clone, Copy, Debug, PartialEq, Eq, Structural)]
pub struct RequestRef {
    pub raw: usize,
}

/// Exclusive access to an HTTP request.
#[derive(Debug, PartialEq, Eq, Structural)]
pub struct RequestRefMut {
    pub raw: usize,
}

/// Exclusive access to a main request's module context without terminal request authority.
#[derive(Debug, PartialEq, Eq, Structural)]
pub struct MainRequestRefMut {
    pub request: RequestRefMut,
}

/// Exclusive access to the client connection of a request.
#[derive(Debug)]
pub struct ConnectionRefMut {
    /// The request, by its address.
    pub request: usize,
}

impl NativeState {
    /// The request that a callback pointer designates, or what is wrong with the pointer.
    pub open spec fn checked_request(self, request: usize) -> Result<usize, RequestError> {
        if request == 0 {
            Err(RequestError::NullRequest)
        } else if !NativeState::aligned(request) {
            Err(RequestError::MisalignedRequest)
        } else if self.requests@[request].signature != NGX_HTTP_MODULE {
            Err(RequestError::InvalidRequestSignature)
        } else {
            Ok(request)
        }
    }

    /// Whether the parent of `request` is an initialized request of `main` other than `request`.
    pub open spec fn has_parent_under(self, request: usize, main: usize) -> bool {
        let parent = self.requests@[request].parent;
        &&& parent != 0
        &&& NativeState::aligned(parent)
        &&& self.requests@[parent].signature == NGX_HTTP_MODULE
        &&& self.requests@[parent].main == main
        &&& parent != request
    }

    /// Whether `main` is reached from `request` over at most `edges` valid parents.
    pub open spec fn reaches(self, request: usize, main: usize, edges: nat) -> bool
        decreases edges,
    {
        &&& edges > 0
        &&& self.has_parent_under(request, main)
        &&& {
            let parent = self.requests@[request].parent;
            parent == main || self.reaches(parent, main, (edges - 1) as nat)
        }
    }

    /// The main request of `raw`, or why it has none.
    pub open spec fn main_of(self, raw: usize) -> Result<usize, RequestError> {
        let main = self.requests@[raw].main;
        if main == 0 {
            Err(RequestError::MissingMain)
        } else if !NativeState::aligned(main) {
            Err(RequestError::MisalignedMain)
        } else if self.requests@[main].signature != NGX_HTTP_MODULE {
            Err(RequestError::InvalidMainSignature)
        } else if self.requests@[main].main != main {
            Err(RequestError::ForeignMain)
        } else if main == raw || self.reaches(raw, main, MAX_SUBREQUEST_PARENT_EDGES as nat) {
            Ok(main)
        } else {
            Err(RequestError::ForeignMain)
        }
    }

    /// The client connection of a request, or what is wrong with it.
    pub open spec fn connection_of(self, raw: usize) -> Result<
        NativeConnection,
        ConnectionError,
    > {
        match self.requests@[raw].connection {
            Pointer::Null => Err(ConnectionError::NullConnection),
            Pointer::Misaligned => Err(ConnectionError::MisalignedConnection),
            Pointer::To(connection) => Ok(connection),
        }
    }

    /// The logger of a request, or why it cannot be read.
    pub open spec fn log_of(self, raw: usize) -> Result<Option<usize>, RequestError> {
        match self.connection_of(raw) {
            Err(error) => Err(RequestError::Connection(error)),
            Ok(connection) => match connection.log {
                Pointer::Null => Ok(None),
                Pointer::Misaligned => Err(RequestError::Connection(ConnectionError::MisalignedLog)),
                Pointer::To(log) => Ok(Some(log)),
            },
        }
    }

    /// The pool of a request, or what is wrong with it.
    pub open spec fn pool_of(self, raw: usize) -> Result<usize, RequestError> {
        let pool = self.requests@[raw].pool;
        if pool == 0 {
            Err(RequestError::MissingPool)
        } else if !NativeState::aligned(pool) {
            Err(RequestError::MisalignedPool)
        } else {
            Ok(pool)
        }
    }

    /// Whether a terminal operation may be handed to nginx.
    pub open spec fn terminal_check(self, raw: usize) -> Result<(), RequestError> {
        match self.main_of(raw) {
            Err(error) => Err(error),
            Ok(_) => match self.connection_of(raw) {
                Err(error) => Err(RequestError::Connection(error)),
                Ok(_) => Ok(()),
            },
        }
    }

    /// The configuration that module `module` has in `slots`.
    pub open spec fn conf_in(self, slots: Pointer<Vec<usize>>,
        module: ModuleDescriptor,
    ) -> Result<Option<usize>, HttpConfigError> {
        match self.slot_index(module) {
            Err(error) => Err(error),
            Ok(index) => match slots {
                Pointer::Null => Ok(None),
                Pointer::Misaligned => Err(HttpConfigError::MisalignedSlots),
                Pointer::To(values) => if values@[index as int] == 0 {
                    Ok(None)
                } else {
                    Ok(Some(values@[index as int]))
                },
            },
        }
    }

    /// The slot that HTTP module `module` has in each slot array.
    pub open spec fn slot_index(self, module: ModuleDescriptor) -> Result<
        usize,
        HttpConfigError,
    > {
        if module.type_ != NGX_HTTP_MODULE {
            Err(HttpConfigError::WrongModuleType)
        } else if module.index >= self.max_module || module.ctx_index >= self.http_max_module {
            Err(HttpConfigError::ModuleIndexOutOfBounds)
        } else {
            Ok(module.ctx_index)
        }
    }

    /// Whether a slot array has a slot for every HTTP module.
    pub open spec fn holds_every_slot(self, slots: Pointer<Vec<usize>>) -> bool {
        slots matches Pointer::To(values) ==> values@.len() >= self.http_max_module
    }

    /// The sent-byte counter of a request's client connection.
    pub open spec fn bytes_sent_of(self, raw: usize) -> Result<u64, RequestError> {
        match self.connection_of(raw) {
            Err(error) => Err(RequestError::Connection(error)),
            Ok(connection) => if connection.sent < 0 {
                Err(RequestError::Connection(ConnectionError::NegativeBytesSent))
            } else {
                Ok(connection.sent as u64)
            },
        }
    }

    /// The response status of a request, when it is a valid one.
    pub open spec fn status_of(self, raw: usize) -> Option<HTTPStatus> {
        let code = self.requests@[raw].headers_out.status;
        if HTTPStatus::in_range(code as int) {
            Some(HTTPStatus(code))
        } else {
            None
        }
    }

    /// Whether a chain of the pool `chain_pool` may be handed to a request's output filter.
    pub open spec fn output_check(self, raw: usize, chain_pool: usize) -> Result<
        NginxCall,
        RequestError,
    > {
        match self.terminal_check(raw) {
            Err(error) => Err(error),
            Ok(_) => match self.pool_of(raw) {
                Err(error) => Err(error),
                Ok(pool) => if chain_pool != pool {
                    Err(RequestError::ForeignPool)
                } else {
                    Ok(NginxCall::OutputFilter { request: raw })
                },
            },
        }
    }
}

/// Checks a request pointer that nginx handed to a callback.
pub fn checked_request_ptr(native: &NativeState, request: usize) -> (result: Result<
    usize,
    RequestError,
>)
    requires
        native.resolves(request),
    ensures
        result == native.checked_request(request),
{
    if request == 0 {
        return Err(RequestError::NullRequest);
    }
    if !is_aligned(request) {
        return Err(RequestError::MisalignedRequest);
    }
    if native.request(request).signature != NGX_HTTP_MODULE {
        return Err(RequestError::InvalidRequestSignature);
    }
    Ok(request)
}

/// The bytes of a native string that is null only when it is empty.
pub fn checked_ngx_str(value: &NativeString) -> (result: Result<&[u8], RequestError>)
    requires
        value.readable(),
    ensures
        result is Err <==> value.missing(),
        result matches Ok(bytes) ==> bytes@ == value.bytes(),
        result matches Err(error) ==> error == RequestError::MissingStringData,
{
    if value.len > 0 && value.data.is_none() {
        return Err(RequestError::MissingStringData);
    }
    Ok(value.as_bytes())
}

/// The main request of a request is its own main request.
pub proof fn law_main_is_its_own_main(native: NativeState, raw: usize)
    requires
        native.main_of(raw) is Ok,
    ensures
        native.main_of(native.main_of(raw)->Ok_0) == native.main_of(raw),
{
}

/// Every valid parent below the main request resolves to the same main request.
pub proof fn law_parent_shares_the_main(native: NativeState, raw: usize)
    requires
        native.main_of(raw) matches Ok(main) && main != raw,
    ensures
        native.main_of(native.requests@[raw].parent) == native.main_of(raw),
{
    let main = native.main_of(raw)->Ok_0;
    let parent = native.requests@[raw].parent;
    assert(native.has_parent_under(raw, main));
    if parent != main {
        assert(native.reaches(parent, main, (MAX_SUBREQUEST_PARENT_EDGES - 1) as nat));
        lemma_reaches_with_more_edges(
            native,
            parent,
            main,
            (MAX_SUBREQUEST_PARENT_EDGES - 1) as nat,
            MAX_SUBREQUEST_PARENT_EDGES as nat,
        );
    }
}

/// A valid status that was set reads back, and the other request keeps its own.
pub proof fn law_set_status_reads_back(
    before: NativeState,
    after: NativeState,
    raw: usize,
    other: usize,
    status: HTTPStatus,
)
    requires
        HTTPStatus::in_range(status.0 as int),
        other != raw,
        after.requests@ == before.requests@.insert(
            raw,
            (NativeRequest {
                headers_out: NativeHeadersOut {
                    status: status.0,
                    ..before.requests@[raw].headers_out
                },
                ..before.requests@[raw]
            }),
        ),
    ensures
        after.status_of(raw) == Some(status),
        before.requests@.contains_key(other) ==> after.status_of(other) == before.status_of(other),
{
}

/// A longer bound keeps what a shorter one accepts.
proof fn lemma_reaches_with_more_edges(
    native: NativeState,
    request: usize,
    main: usize,
    fewer: nat,
    more: nat,
)
    requires
        fewer <= more,
        native.reaches(request, main, fewer),
    ensures
        native.reaches(request, main, more),
    decreases fewer,
{
    let parent = native.requests@[request].parent;
    if parent != main {
        lemma_reaches_with_more_edges(
            native,
            parent,
            main,
            (fewer - 1) as nat,
            (more - 1) as nat,
        );
    }
}

/// The slot that HTTP module `module` has in each slot array.
pub fn module_slot_index(native: &NativeState, module: ModuleDescriptor) -> (result: Result<
    usize,
    HttpConfigError,
>)
    ensures
        result == native.slot_index(module),
{
    if module.type_ != NGX_HTTP_MODULE {
        return Err(HttpConfigError::WrongModuleType);
    }
    if module.index >= native.max_module || module.ctx_index >= native.http_max_module {
        return Err(HttpConfigError::ModuleIndexOutOfBounds);
    }
    Ok(module.ctx_index)
}

/// The configuration that module `module` has in `slots`.
pub fn conf_slot(
    native: &NativeState,
    slots: &Pointer<Vec<usize>>,
    module: ModuleDescriptor,
) -> (result: Result<Option<usize>, HttpConfigError>)
    requires
        native.holds_every_slot(*slots),
    ensures
        result == native.conf_in(*slots, module),
{
    let index = match module_slot_index(native, module) {
        Ok(index) => index,
        Err(error) => return Err(error),
    };
    match slots {
        Pointer::Null => Ok(None),
        Pointer::Misaligned => Err(HttpConfigError::MisalignedSlots),
        Pointer::To(values) => {
            if values[index] == 0 {
                Ok(None)
            } else {
                Ok(Some(values[index]))
            }
        },
    }
}

impl RequestRef {
    /// Creates a checked shared request view from an nginx callback pointer.
    pub fn from_raw(native: &NativeState, request: usize) -> (result: Result<Self, RequestError>)
        requires
            native.resolves(request),
        ensures
            result == (match native.checked_request(request) {
                Ok(raw) => Ok::<RequestRef, RequestError>(RequestRef { raw }),
                Err(error) => Err::<RequestRef, RequestError>(error),
            }),
    {
        match checked_request_ptr(native, request) {
            Ok(raw) => Ok(RequestRef { raw }),
            Err(error) => Err(error),
        }
    }

    /// Invokes a closure with a checked request view.
    pub fn with_raw<R, F: FnOnce(RequestRef) -> R>(
        native: &NativeState,
        request: usize,
        f: F,
    ) -> (result: Result<R, RequestError>)
        requires
            native.resolves(request),
            native.checked_request(request) matches Ok(raw) ==> f.requires((RequestRef { raw },)),
        ensures
            match native.checked_request(request) {
                Ok(raw) => result matches Ok(value) && f.ensures((RequestRef { raw },), value),
                Err(error) => result matches Err(e) && e == error,
            },
    {
        match Self::from_raw(native, request) {
            Ok(view) => Ok(f(view)),
            Err(error) => Err(error),
        }
    }

    /// Returns the native request address.
    pub fn as_ptr(&self) -> (result: usize)
        ensures
            result == self.raw,
    {
        self.raw
    }

    /// Shared main configuration of a module, by its address.
    pub fn main_conf(&self, native: &NativeState, module: ModuleDescriptor) -> (result: Result<
        Option<usize>,
        HttpConfigError,
    >)
        requires
            native.requests@.contains_key(self.raw),
            native.holds_every_slot(native.requests@[self.raw].main_conf),
        ensures
            result == native.conf_in(native.requests@[self.raw].main_conf, module),
    {
        conf_slot(native, &native.request(self.raw).main_conf, module)
    }

    /// Shared server configuration of a module, by its address.
    pub fn server_conf(&self, native: &NativeState, module: ModuleDescriptor) -> (result: Result<
        Option<usize>,
        HttpConfigError,
    >)
        requires
            native.requests@.contains_key(self.raw),
            native.holds_every_slot(native.requests@[self.raw].srv_conf),
        ensures
            result == native.conf_in(native.requests@[self.raw].srv_conf, module),
    {
        conf_slot(native, &native.request(self.raw).srv_conf, module)
    }

    /// Shared location configuration of a module, by its address.
    pub fn location_conf(&self, native: &NativeState, module: ModuleDescriptor) -> (result: Result<
        Option<usize>,
        HttpConfigError,
    >)
        requires
            native.requests@.contains_key(self.raw),
            native.holds_every_slot(native.requests@[self.raw].loc_conf),
        ensures
            result == native.conf_in(native.requests@[self.raw].loc_conf, module),
    {
        conf_slot(native, &native.request(self.raw).loc_conf, module)
    }

    /// Resolves the main request and checks that it is the root of this request's parent chain.
    pub fn main_raw(&self, native: &NativeState) -> (result: Result<usize, RequestError>)
        requires
            native.live(self.raw),
        ensures
            result == native.main_of(self.raw),
    {
        let main = native.request(self.raw).main;
        if main == 0 {
            return Err(RequestError::MissingMain);
        }
        if !is_aligned(main) {
            return Err(RequestError::MisalignedMain);
        }
        assert(native.resolves(native.requests@[self.raw].main));
        if native.request(main).signature != NGX_HTTP_MODULE {
            return Err(RequestError::InvalidMainSignature);
        }
        if native.request(main).main != main {
            return Err(RequestError::ForeignMain);
        }
        if main == self.raw {
            return Ok(main);
        }
        let mut request: usize = self.raw;
        let mut edges: usize = MAX_SUBREQUEST_PARENT_EDGES;
        while edges > 0
            invariant
                edges <= MAX_SUBREQUEST_PARENT_EDGES,
                native.linked(),
                native.requests@.contains_key(request),
                main == native.requests@[self.raw].main,
                main != 0,
                NativeState::aligned(main),
                main != self.raw,
                native.requests@[main].signature == NGX_HTTP_MODULE,
                native.requests@[main].main == main,
                native.reaches(self.raw, main, MAX_SUBREQUEST_PARENT_EDGES as nat) == native.reaches(request,
                    main,
                    edges as nat,
                ),
            decreases edges,
        {
            let parent = native.request(request).parent;
            if parent == 0 || !is_aligned(parent) {
                return Err(RequestError::ForeignMain);
            }
            assert(native.resolves(native.requests@[request].parent));
            if native.request(parent).signature != NGX_HTTP_MODULE || native.request(parent).main
                != main {
                return Err(RequestError::ForeignMain);
            }
            if parent == request {
                return Err(RequestError::ForeignMain);
            }
            if parent == main {
                return Ok(main);
            }
            request = parent;
            edges = edges - 1;
        }
        Err(RequestError::ForeignMain)
    }

    /// Returns whether this is the main request.
    pub fn is_main(&self, native: &NativeState) -> (result: Result<bool, RequestError>)
        requires
            native.live(self.raw),
        ensures
            result == (match native.main_of(self.raw) {
                Ok(main) => Ok::<bool, RequestError>(main == self.raw),
                Err(error) => Err::<bool, RequestError>(error),
            }),
    {
        match self.main_raw(native) {
            Ok(main) => Ok(main == self.raw),
            Err(error) => Err(error),
        }
    }

    /// Whether nginx marked this request as internal.
    pub fn is_internal(&self, native: &NativeState) -> (result: bool)
        requires
            native.requests@.contains_key(self.raw),
        ensures
            result == native.requests@[self.raw].internal,
    {
        native.request(self.raw).internal
    }

    /// Number of additional nested subrequests nginx permits from this request.
    pub fn subrequests_available(&self, native: &NativeState) -> (result: u32)
        requires
            native.requests@.contains_key(self.raw),
        ensures
            result == native.requests@[self.raw].subrequests,
    {
        native.request(self.raw).subrequests
    }

    /// Shared access to the root main request.
    pub fn main(&self, native: &NativeState) -> (result: Result<RequestRef, RequestError>)
        requires
            native.live(self.raw),
        ensures
            result == (match native.main_of(self.raw) {
                Ok(raw) => Ok::<RequestRef, RequestError>(RequestRef { raw }),
                Err(error) => Err::<RequestRef, RequestError>(error),
            }),
    {
        match self.main_raw(native) {
            Ok(raw) => Ok(RequestRef { raw }),
            Err(error) => Err(error),
        }
    }

    /// Request pool, by its address.
    pub fn pool(&self, native: &NativeState) -> (result: Result<usize, RequestError>)
        requires
            native.requests@.contains_key(self.raw),
        ensures
            result == native.pool_of(self.raw),
    {
        let pool = native.request(self.raw).pool;
        if pool == 0 {
            return Err(RequestError::MissingPool);
        }
        if !is_aligned(pool) {
            return Err(RequestError::MisalignedPool);
        }
        Ok(pool)
    }

    /// Client connection associated with this request.
    pub fn connection<'a>(&self, native: &'a NativeState) -> (result: Result<
        &'a NativeConnection,
        RequestError,
    >)
        requires
            native.requests@.contains_key(self.raw),
        ensures
            match native.connection_of(self.raw) {
                Ok(connection) => result matches Ok(c) && *c == connection,
                Err(error) => result matches Err(e) && e == RequestError::Connection(error),
            },
    {
        match &native.request(self.raw).connection {
            Pointer::Null => Err(RequestError::from(ConnectionError::NullConnection)),
            Pointer::Misaligned => Err(RequestError::from(ConnectionError::MisalignedConnection)),
            Pointer::To(connection) => Ok(connection),
        }
    }

    /// Logger associated with the client connection, by its address, when nginx configured one.
    pub fn log(&self, native: &NativeState) -> (result: Result<Option<usize>, RequestError>)
        requires
            native.requests@.contains_key(self.raw),
        ensures
            result == native.log_of(self.raw),
    {
        match self.connection(native) {
            Err(error) => Err(error),
            Ok(connection) => match connection.log {
                Pointer::Null => Ok(None),
                Pointer::Misaligned => Err(RequestError::from(ConnectionError::MisalignedLog)),
                Pointer::To(log) => Ok(Some(log)),
            },
        }
    }

    /// Returns checked upstream connection attempts recorded for this request.
    pub fn upstream_states<'a>(&self, native: &'a NativeState) -> (result: Result<
        Option<UpstreamStates<'a>>,
        UpstreamStateError,
    >)
        requires
            native.requests@.contains_key(self.raw),
            native.requests@[self.raw].upstream_states matches Pointer::To(value)
                ==> value.readable(),
        ensures
            match native.requests@[self.raw].upstream_states {
                Pointer::Null => result matches Ok(None),
                Pointer::Misaligned => result matches Err(UpstreamStateError::MisalignedArray),
                Pointer::To(value) => if value.valid() {
                    result matches Ok(Some(states)) && states.wf() && states@ == value.states()
                } else {
                    result matches Err(UpstreamStateError::InvalidArray)
                },
            },
    {
        UpstreamStates::from_raw(&native.request(self.raw).upstream_states)
    }

    /// Returns the active upstream, by its address.
    pub fn upstream(&self, native: &NativeState) -> (result: Option<usize>)
        requires
            native.requests@.contains_key(self.raw),
        ensures
            result == (if native.requests@[self.raw].upstream == 0 {
                None
            } else {
                Some(native.requests@[self.raw].upstream)
            }),
    {
        let upstream = native.request(self.raw).upstream;
        if upstream == 0 {
            None
        } else {
            Some(upstream)
        }
    }

    /// Seconds since the Unix epoch when nginx created the request.
    pub fn start_sec(&self, native: &NativeState) -> (result: Result<u64, RequestError>)
        requires
            native.requests@.contains_key(self.raw),
        ensures
            result == (if native.requests@[self.raw].start_sec < 0 {
                Err::<u64, RequestError>(RequestError::NegativeStartTime)
            } else {
                Ok::<u64, RequestError>(native.requests@[self.raw].start_sec as u64)
            }),
    {
        let seconds = native.request(self.raw).start_sec;
        if seconds < 0 {
            return Err(RequestError::NegativeStartTime);
        }
        Ok(seconds as u64)
    }

    /// Millisecond component of the request creation time.
    pub fn start_msec(&self, native: &NativeState) -> (result: u64)
        requires
            native.requests@.contains_key(self.raw),
        ensures
            result == native.requests@[self.raw].start_msec,
    {
        native.request(self.raw).start_msec as u64
    }

    /// Bytes received for the request line, headers, and body parsed so far.
    pub fn request_length(&self, native: &NativeState) -> (result: Result<u64, RequestError>)
        requires
            native.requests@.contains_key(self.raw),
        ensures
            result == (if native.requests@[self.raw].request_length < 0 {
                Err::<u64, RequestError>(RequestError::NegativeCounter)
            } else {
                Ok::<u64, RequestError>(native.requests@[self.raw].request_length as u64)
            }),
    {
        let length = native.request(self.raw).request_length;
        if length < 0 {
            return Err(RequestError::NegativeCounter);
        }
        Ok(length as u64)
    }

    /// Current value of the client connection's sent-byte counter.
    pub fn bytes_sent(&self, native: &NativeState) -> (result: Result<u64, RequestError>)
        requires
            native.requests@.contains_key(self.raw),
        ensures
            result == native.bytes_sent_of(self.raw),
    {
        match self.connection(native) {
            Err(error) => Err(error),
            Ok(connection) => {
                if connection.sent < 0 {
                    Err(RequestError::from(ConnectionError::NegativeBytesSent))
                } else {
                    Ok(connection.sent as u64)
                }
            },
        }
    }

    /// HTTP response status set by nginx.
    ///
    /// Returns `None` while the status is unset or outside the valid HTTP range.
    pub fn status(&self, native: &NativeState) -> (result: Option<HTTPStatus>)
        requires
            native.requests@.contains_key(self.raw),
        ensures
            result == native.status_of(self.raw),
    {
        match HTTPStatus::from_code(native.request(self.raw).headers_out.status) {
            Ok(status) => Some(status),
            Err(_) => None,
        }
    }

    /// Path part of the request URI.
    pub fn path<'a>(&self, native: &'a NativeState) -> (result: Result<&'a [u8], RequestError>)
        requires
            native.requests@.contains_key(self.raw),
            native.requests@[self.raw].uri.readable(),
        ensures
            result is Err <==> native.requests@[self.raw].uri.missing(),
            result matches Ok(bytes) ==> bytes@ == native.requests@[self.raw].uri.bytes(),
            result matches Err(error) ==> error == RequestError::MissingStringData,
    {
        checked_ngx_str(&native.request(self.raw).uri)
    }

    /// Full request URI with its query arguments.
    pub fn unparsed_uri<'a>(&self, native: &'a NativeState) -> (result: Result<
        &'a [u8],
        RequestError,
    >)
        requires
            native.requests@.contains_key(self.raw),
            native.requests@[self.raw].unparsed_uri.readable(),
        ensures
            result is Err <==> native.requests@[self.raw].unparsed_uri.missing(),
            result matches Ok(bytes) ==> bytes@ == native.requests@[self.raw].unparsed_uri.bytes(),
            result matches Err(error) ==> error == RequestError::MissingStringData,
    {
        checked_ngx_str(&native.request(self.raw).unparsed_uri)
    }

    /// Whether nginx marked the response as header-only.
    pub fn header_only(&self, native: &NativeState) -> (result: bool)
        requires
            native.requests@.contains_key(self.raw),
        ensures
            result == native.requests@[self.raw].header_only,
    {
        native.request(self.raw).header_only
    }

    /// Whether nginx may reuse the client connection after this response.
    pub fn keepalive(&self, native: &NativeState) -> (result: bool)
        requires
            native.requests@.contains_key(self.raw),
        ensures
            result == native.requests@[self.raw].keepalive,
    {
        native.request(self.raw).keepalive
    }

    /// Whether nginx expects output trailers for this response.
    pub fn expect_trailers(&self, native: &NativeState) -> (result: bool)
        requires
            native.requests@.contains_key(self.raw),
        ensures
            result == native.requests@[self.raw].expect_trailers,
    {
        native.request(self.raw).expect_trailers
    }
}

impl RequestRefMut {
    /// Creates a checked exclusive request view from an nginx callback pointer.
    pub fn from_raw(native: &NativeState, request: usize) -> (result: Result<Self, RequestError>)
        requires
            native.resolves(request),
        ensures
            result == (match native.checked_request(request) {
                Ok(raw) => Ok::<RequestRefMut, RequestError>(RequestRefMut { raw }),
                Err(error) => Err::<RequestRefMut, RequestError>(error),
            }),
    {
        match checked_request_ptr(native, request) {
            Ok(raw) => Ok(RequestRefMut { raw }),
            Err(error) => Err(error),
        }
    }

    /// Invokes a closure with a checked request view.
    pub fn with_raw<R, F: FnOnce(RequestRefMut) -> R>(
        native: &NativeState,
        request: usize,
        f: F,
    ) -> (result: Result<R, RequestError>)
        requires
            native.resolves(request),
            native.checked_request(request) matches Ok(raw) ==> f.requires(
                (RequestRefMut { raw },),
            ),
        ensures
            match native.checked_request(request) {
                Ok(raw) => result matches Ok(value) && f.ensures((RequestRefMut { raw },), value),
                Err(error) => result matches Err(e) && e == error,
            },
    {
        match Self::from_raw(native, request) {
            Ok(view) => Ok(f(view)),
            Err(error) => Err(error),
        }
    }

    /// Returns a shared reborrow of this request.
    pub fn view(&self) -> (result: RequestRef)
        ensures
            result == (RequestRef { raw: self.raw }),
    {
        RequestRef { raw: self.raw }
    }

    /// Returns the native request address.
    pub fn as_ptr(&self) -> (result: usize)
        ensures
            result == self.raw,
    {
        self.raw
    }

    /// Shared main configuration of a module, by its address.
    pub fn main_conf(&self, native: &NativeState, module: ModuleDescriptor) -> (result: Result<
        Option<usize>,
        HttpConfigError,
    >)
        requires
            native.requests@.contains_key(self.raw),
            native.holds_every_slot(native.requests@[self.raw].main_conf),
        ensures
            result == native.conf_in(native.requests@[self.raw].main_conf, module),
    {
        self.view().main_conf(native, module)
    }

    /// Shared server configuration of a module, by its address.
    pub fn server_conf(&self, native: &NativeState, module: ModuleDescriptor) -> (result: Result<
        Option<usize>,
        HttpConfigError,
    >)
        requires
            native.requests@.contains_key(self.raw),
            native.holds_every_slot(native.requests@[self.raw].srv_conf),
        ensures
            result == native.conf_in(native.requests@[self.raw].srv_conf, module),
    {
        self.view().server_conf(native, module)
    }

    /// Shared location configuration of a module, by its address.
    pub fn location_conf(&self, native: &NativeState, module: ModuleDescriptor) -> (result: Result<
        Option<usize>,
        HttpConfigError,
    >)
        requires
            native.requests@.contains_key(self.raw),
            native.holds_every_slot(native.requests@[self.raw].loc_conf),
        ensures
            result == native.conf_in(native.requests@[self.raw].loc_conf, module),
    {
        self.view().location_conf(native, module)
    }

    /// Returns whether this is the main request.
    pub fn is_main(&self, native: &NativeState) -> (result: Result<bool, RequestError>)
        requires
            native.live(self.raw),
        ensures
            result == (match native.main_of(self.raw) {
                Ok(main) => Ok::<bool, RequestError>(main == self.raw),
                Err(error) => Err::<bool, RequestError>(error),
            }),
    {
        self.view().is_main(native)
    }

    /// Whether nginx marked this request as internal.
    pub fn is_internal(&self, native: &NativeState) -> (result: bool)
        requires
            native.requests@.contains_key(self.raw),
        ensures
            result == native.requests@[self.raw].internal,
    {
        self.view().is_internal(native)
    }

    /// Number of additional nested subrequests nginx permits from this request.
    pub fn subrequests_available(&self, native: &NativeState) -> (result: u32)
        requires
            native.requests@.contains_key(self.raw),
        ensures
            result == native.requests@[self.raw].subrequests,
    {
        self.view().subrequests_available(native)
    }

    /// Shared access to the root main request.
    pub fn main(&self, native: &NativeState) -> (result: Result<RequestRef, RequestError>)
        requires
            native.live(self.raw),
        ensures
            result == (match native.main_of(self.raw) {
                Ok(raw) => Ok::<RequestRef, RequestError>(RequestRef { raw }),
                Err(error) => Err::<RequestRef, RequestError>(error),
            }),
    {
        self.view().main(native)
    }

    /// Request pool, by its address.
    pub fn pool(&self, native: &NativeState) -> (result: Result<usize, RequestError>)
        requires
            native.requests@.contains_key(self.raw),
        ensures
            result == native.pool_of(self.raw),
    {
        self.view().pool(native)
    }

    /// Client connection associated with this request.
    pub fn connection<'a>(&self, native: &'a NativeState) -> (result: Result<
        &'a NativeConnection,
        RequestError,
    >)
        requires
            native.requests@.contains_key(self.raw),
        ensures
            match native.connection_of(self.raw) {
                Ok(connection) => result matches Ok(c) && *c == connection,
                Err(error) => result matches Err(e) && e == RequestError::Connection(error),
            },
    {
        self.view().connection(native)
    }

    /// Logger associated with the client connection, by its address, when nginx configured one.
    pub fn log(&self, native: &NativeState) -> (result: Result<Option<usize>, RequestError>)
        requires
            native.requests@.contains_key(self.raw),
        ensures
            result == native.log_of(self.raw),
    {
        self.view().log(native)
    }

    /// Returns checked upstream connection attempts recorded for this request.
    pub fn upstream_states<'a>(&self, native: &'a NativeState) -> (result: Result<
        Option<UpstreamStates<'a>>,
        UpstreamStateError,
    >)
        requires
            native.requests@.contains_key(self.raw),
            native.requests@[self.raw].upstream_states matches Pointer::To(value)
                ==> value.readable(),
        ensures
            match native.requests@[self.raw].upstream_states {
                Pointer::Null => result matches Ok(None),
                Pointer::Misaligned => result matches Err(UpstreamStateError::MisalignedArray),
                Pointer::To(value) => if value.valid() {
                    result matches Ok(Some(states)) && states.wf() && states@ == value.states()
                } else {
                    result matches Err(UpstreamStateError::InvalidArray)
                },
            },
    {
        self.view().upstream_states(native)
    }

    /// Returns the active upstream, by its address.
    pub fn upstream(&self, native: &NativeState) -> (result: Option<usize>)
        requires
            native.requests@.contains_key(self.raw),
        ensures
            result == (if native.requests@[self.raw].upstream == 0 {
                None
            } else {
                Some(native.requests@[self.raw].upstream)
            }),
    {
        self.view().upstream(native)
    }

    /// Exclusive access to the client connection associated with this request.
    pub fn connection_mut(&mut self, native: &NativeState) -> (result: Result<
        ConnectionRefMut,
        RequestError,
    >)
        requires
            native.requests@.contains_key(old(self).raw),
        ensures
            *final(self) == *old(self),
            match native.connection_of(old(self).raw) {
                Ok(_) => result matches Ok(connection) && connection.request == old(self).raw,
                Err(error) => result matches Err(e) && e == RequestError::Connection(error),
            },
    {
        match self.connection(native) {
            Ok(_) => Ok(ConnectionRefMut { request: self.raw }),
            Err(error) => Err(error),
        }
    }

    /// Seconds since the Unix epoch when nginx created the request.
    pub fn start_sec(&self, native: &NativeState) -> (result: Result<u64, RequestError>)
        requires
            native.requests@.contains_key(self.raw),
        ensures
            result == (if native.requests@[self.raw].start_sec < 0 {
                Err::<u64, RequestError>(RequestError::NegativeStartTime)
            } else {
                Ok::<u64, RequestError>(native.requests@[self.raw].start_sec as u64)
            }),
    {
        self.view().start_sec(native)
    }

    /// Millisecond component of the request creation time.
    pub fn start_msec(&self, native: &NativeState) -> (result: u64)
        requires
            native.requests@.contains_key(self.raw),
        ensures
            result == native.requests@[self.raw].start_msec,
    {
        self.view().start_msec(native)
    }

    /// Bytes received for the request line, headers, and body parsed so far.
    pub fn request_length(&self, native: &NativeState) -> (result: Result<u64, RequestError>)
        requires
            native.requests@.contains_key(self.raw),
        ensures
            result == (if native.requests@[self.raw].request_length < 0 {
                Err::<u64, RequestError>(RequestError::NegativeCounter)
            } else {
                Ok::<u64, RequestError>(native.requests@[self.raw].request_length as u64)
            }),
    {
        self.view().request_length(native)
    }

    /// Current value of the client connection's sent-byte counter.
    pub fn bytes_sent(&self, native: &NativeState) -> (result: Result<u64, RequestError>)
        requires
            native.requests@.contains_key(self.raw),
        ensures
            result == native.bytes_sent_of(self.raw),
    {
        self.view().bytes_sent(native)
    }

    /// HTTP response status set by nginx.
    pub fn status(&self, native: &NativeState) -> (result: Option<HTTPStatus>)
        requires
            native.requests@.contains_key(self.raw),
        ensures
            result == native.status_of(self.raw),
    {
        self.view().status(native)
    }

    /// Path part of the request URI.
    pub fn path<'a>(&self, native: &'a NativeState) -> (result: Result<&'a [u8], RequestError>)
        requires
            native.requests@.contains_key(self.raw),
            native.requests@[self.raw].uri.readable(),
        ensures
            result is Err <==> native.requests@[self.raw].uri.missing(),
            result matches Ok(bytes) ==> bytes@ == native.requests@[self.raw].uri.bytes(),
            result matches Err(error) ==> error == RequestError::MissingStringData,
    {
        self.view().path(native)
    }

    /// Full request URI with its query arguments.
    pub fn unparsed_uri<'a>(&self, native: &'a NativeState) -> (result: Result<&'a [u8], RequestError>)
        requires
            native.requests@.contains_key(self.raw),
            native.requests@[self.raw].unparsed_uri.readable(),
        ensures
            result is Err <==> native.requests@[self.raw].unparsed_uri.missing(),
            result matches Ok(bytes) ==> bytes@ == native.requests@[self.raw].unparsed_uri.bytes(),
            result matches Err(error) ==> error == RequestError::MissingStringData,
    {
        self.view().unparsed_uri(native)
    }

    /// Whether nginx marked the response as header-only.
    pub fn header_only(&self, native: &NativeState) -> (result: bool)
        requires
            native.requests@.contains_key(self.raw),
        ensures
            result == native.requests@[self.raw].header_only,
    {
        self.view().header_only(native)
    }

    /// Whether nginx may reuse the client connection after this response.
    pub fn keepalive(&self, native: &NativeState) -> (result: bool)
        requires
            native.requests@.contains_key(self.raw),
        ensures
            result == native.requests@[self.raw].keepalive,
    {
        self.view().keepalive(native)
    }

    /// Whether nginx expects output trailers for this response.
    pub fn expect_trailers(&self, native: &NativeState) -> (result: bool)
        requires
            native.requests@.contains_key(self.raw),
        ensures
            result == native.requests@[self.raw].expect_trailers,
    {
        self.view().expect_trailers(native)
    }

    /// Exclusive reborrow of the root main request without terminal request authority.
    pub fn main_mut(&mut self, native: &NativeState) -> (result: Result<
        MainRequestRefMut,
        RequestError,
    >)
        requires
            native.live(old(self).raw),
        ensures
            *final(self) == *old(self),
            result == (match native.main_of(old(self).raw) {
                Ok(raw) => Ok::<MainRequestRefMut, RequestError>(
                    (MainRequestRefMut { request: RequestRefMut { raw } }),
                ),
                Err(error) => Err::<MainRequestRefMut, RequestError>(error),
            }),
    {
        match self.view().main_raw(native) {
            Ok(raw) => Ok(MainRequestRefMut { request: RequestRefMut { raw } }),
            Err(error) => Err(error),
        }
    }

    /// Consumes this view and returns exclusive access to the root main request.
    pub fn into_main(self, native: &NativeState) -> (result: Result<Self, RequestError>)
        requires
            native.live(self.raw),
        ensures
            result == (match native.main_of(self.raw) {
                Ok(raw) => Ok::<RequestRefMut, RequestError>(RequestRefMut { raw }),
                Err(error) => Err::<RequestRefMut, RequestError>(error),
            }),
    {
        match self.view().main_raw(native) {
            Ok(raw) => Ok(RequestRefMut { raw }),
            Err(error) => Err(error),
        }
    }

    /// Sets the HTTP response status.
    pub fn set_status(&mut self, native: &mut NativeState, status: HTTPStatus)
        requires
            old(native).requests@.contains_key(old(self).raw),
        ensures
            *final(self) == *old(self),
            final(native).requests@ == old(native).requests@.insert(
                old(self).raw,
                (NativeRequest {
                    headers_out: NativeHeadersOut {
                        status: status.0,
                        ..old(native).requests@[old(self).raw].headers_out
                    },
                    ..old(native).requests@[old(self).raw]
                }),
            ),
            *final(native) == (NativeState { requests: final(native).requests, ..*old(native) }),
    {
        let mut request = native.take_request(self.raw);
        request.headers_out.status = status.0;
        native.put_request(self.raw, request);
        assert(native.requests@ =~= old(native).requests@.insert(
            old(self).raw,
            (NativeRequest {
                headers_out: NativeHeadersOut {
                    status: status.0,
                    ..old(native).requests@[old(self).raw].headers_out
                },
                ..old(native).requests@[old(self).raw]
            }),
        ));
    }

    /// Sets whether nginx may reuse the client connection after this response.
    pub fn set_keepalive(&mut self, native: &mut NativeState, keepalive: bool)
        requires
            old(native).requests@.contains_key(old(self).raw),
        ensures
            *final(self) == *old(self),
            final(native).requests@ == old(native).requests@.insert(
                old(self).raw,
                (NativeRequest { keepalive: keepalive, ..old(native).requests@[old(self).raw] }),
            ),
            *final(native) == (NativeState { requests: final(native).requests, ..*old(native) }),
    {
        let mut request = native.take_request(self.raw);
        request.keepalive = keepalive;
        native.put_request(self.raw, request);
        assert(native.requests@ =~= old(native).requests@.insert(
            old(self).raw,
            (NativeRequest { keepalive: keepalive, ..old(native).requests@[old(self).raw] }),
        ));
    }

    /// Sets whether nginx must suppress the response body.
    pub fn set_header_only(&mut self, native: &mut NativeState, header_only: bool)
        requires
            old(native).requests@.contains_key(old(self).raw),
        ensures
            *final(self) == *old(self),
            final(native).requests@ == old(native).requests@.insert(
                old(self).raw,
                (NativeRequest { header_only: header_only, ..old(native).requests@[old(self).raw] }),
            ),
            *final(native) == (NativeState { requests: final(native).requests, ..*old(native) }),
    {
        let mut request = native.take_request(self.raw);
        request.header_only = header_only;
        native.put_request(self.raw, request);
        assert(native.requests@ =~= old(native).requests@.insert(
            old(self).raw,
            (NativeRequest { header_only: header_only, ..old(native).requests@[old(self).raw] }),
        ));
    }

    /// Sets whether nginx expects output trailers for this response.
    pub fn set_expect_trailers(&mut self, native: &mut NativeState, expect_trailers: bool)
        requires
            old(native).requests@.contains_key(old(self).raw),
        ensures
            *final(self) == *old(self),
            final(native).requests@ == old(native).requests@.insert(
                old(self).raw,
                (NativeRequest { expect_trailers: expect_trailers, ..old(native).requests@[old(self).raw] }),
            ),
            *final(native) == (NativeState { requests: final(native).requests, ..*old(native) }),
    {
        let mut request = native.take_request(self.raw);
        request.expect_trailers = expect_trailers;
        native.put_request(self.raw, request);
        assert(native.requests@ =~= old(native).requests@.insert(
            old(self).raw,
            (NativeRequest { expect_trailers: expect_trailers, ..old(native).requests@[old(self).raw] }),
        ));
    }

    /// Marks whether nginx has sent the response headers.
    pub fn set_header_sent(&mut self, native: &mut NativeState, header_sent: bool)
        requires
            old(native).requests@.contains_key(old(self).raw),
        ensures
            *final(self) == *old(self),
            final(native).requests@ == old(native).requests@.insert(
                old(self).raw,
                (NativeRequest { header_sent: header_sent, ..old(native).requests@[old(self).raw] }),
            ),
            *final(native) == (NativeState { requests: final(native).requests, ..*old(native) }),
    {
        let mut request = native.take_request(self.raw);
        request.header_sent = header_sent;
        native.put_request(self.raw, request);
        assert(native.requests@ =~= old(native).requests@.insert(
            old(self).raw,
            (NativeRequest { header_sent: header_sent, ..old(native).requests@[old(self).raw] }),
        ));
    }

    /// Sends the output header.
    pub fn send_header(&mut self, native: &NativeState) -> (result: Result<NginxCall, RequestError>)
        requires
            native.live(old(self).raw),
        ensures
            *final(self) == *old(self),
            result == (match native.terminal_check(old(self).raw) {
                Ok(_) => Ok::<NginxCall, RequestError>(
                    (NginxCall::SendHeader { request: old(self).raw }),
                ),
                Err(error) => Err::<NginxCall, RequestError>(error),
            }),
    {
        match self.validate_terminal_operation(native) {
            Ok(_) => Ok(NginxCall::SendHeader { request: self.raw }),
            Err(error) => Err(error),
        }
    }

    /// Hands a request-pool-owned response chain to nginx's current output filter.
    pub fn output_filter(&mut self, native: &NativeState, body: &PoolChain) -> (result: Result<
        NginxCall,
        RequestError,
    >)
        requires
            native.live(old(self).raw),
        ensures
            *final(self) == *old(self),
            result == native.output_check(old(self).raw, body.pool),
    {
        match self.validate_terminal_operation(native) {
            Ok(_) => {},
            Err(error) => return Err(error),
        }
        let pool = match self.pool(native) {
            Ok(pool) => pool,
            Err(error) => return Err(error),
        };
        if body.pool != pool {
            return Err(RequestError::ForeignPool);
        }
        Ok(NginxCall::OutputFilter { request: self.raw })
    }

    /// Checks that the request can still be handed to nginx.
    pub fn validate_terminal_operation(&self, native: &NativeState) -> (result: Result<
        (),
        RequestError,
    >)
        requires
            native.live(self.raw),
        ensures
            result == native.terminal_check(self.raw),
    {
        match self.view().main_raw(native) {
            Ok(_) => {},
            Err(error) => return Err(error),
        }
        match self.connection(native) {
            Ok(_) => Ok(()),
            Err(error) => Err(error),
        }
    }
}

impl ConnectionRefMut {
    /// The connection.
    pub fn get<'a>(&self, native: &'a NativeState) -> (result: &'a NativeConnection)
        requires
            native.requests@.contains_key(self.request),
            native.requests@[self.request].connection is To,
        ensures
            *result == native.requests@[self.request].connection->To_0,
    {
        match &native.request(self.request).connection {
            Pointer::To(connection) => connection,
            _ => vstd::pervasive::unreached(),
        }
    }

    /// Changes the connection to `connection`.
    pub fn set(&mut self, native: &mut NativeState, connection: NativeConnection)
        requires
            old(native).requests@.contains_key(old(self).request),
        ensures
            *final(self) == *old(self),
            final(native).requests@ == old(native).requests@.insert(
                old(self).request,
                (NativeRequest {
                    connection: Pointer::To(connection),
                    ..old(native).requests@[old(self).request]
                }),
            ),
            *final(native) == (NativeState { requests: final(native).requests, ..*old(native) }),
    {
        let mut request = native.take_request(self.request);
        request.connection = Pointer::To(connection);
        native.put_request(self.request, request);
        assert(native.requests@ =~= old(native).requests@.insert(
            self.request,
            (NativeRequest {
                connection: Pointer::To(connection),
                ..old(native).requests@[self.request]
            }),
        ));
    }
}

} // verus!
