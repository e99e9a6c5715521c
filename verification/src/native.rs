//! Plain values that stand for nginx's native objects.

use std::collections::HashMap;

use vstd::prelude::*;
use vstd::slice::{slice_subrange, slice_to_vec};

use crate::request::body::NativeBody;
use crate::request::context::RequestContextRegistry;
use crate::request::header_slots::{NativeHeadersIn, NativeHeadersOut};
use crate::upstream::callback::UpstreamCallbackSlot;
use crate::upstream::peer::NativeUpstream;
use crate::upstream::state::NativeStateArray;
use crate::variable::{NativeCoreMain, VariableStore};

verus! {

/// Alignment of every native structure that a request links to.
pub const NATIVE_ALIGN: usize = 8;

/// Signature of an initialized HTTP request and type of an HTTP module (`HTTP`).
pub const NGX_HTTP_MODULE: u32 = 0x5054_5448;

/// Type of a core module (`CORE`).
pub const NGX_CORE_MODULE: u32 = 0x4552_4f43;

/// How deep nginx nests subrequests.
pub const NGX_HTTP_MAX_SUBREQUESTS: usize = 50;

/// Whether the address `pointer` may hold a native structure.
pub fn is_aligned(pointer: usize) -> (result: bool)
    ensures
        result == NativeState::aligned(pointer),
{
    pointer % NATIVE_ALIGN == 0
}

/// What a native pointer field leads to.
#[derive(Debug)]
pub enum Pointer<T> {
    /// The pointer is null.
    Null,
    /// The pointer cannot hold a `T`.
    Misaligned,
    /// The pointer leads to this value.
    To(T),
}

/// A native string: a length and a data pointer.
///
/// `data` holds the bytes that can be read through the data pointer; it is `None` when that
/// pointer is null.
#[derive(Debug)]
pub struct NativeString {
    pub len: usize,
    pub data: Option<Vec<u8>>,
}

impl NativeString {
    /// Whether every byte that the length promises can be read.
    pub open spec fn readable(self) -> bool {
        self.data is Some ==> self.len <= self.data->0.len()
    }

    /// The bytes of the string.
    pub open spec fn bytes(self) -> Seq<u8> {
        if self.len == 0 || self.data is None {
            Seq::empty()
        } else {
            self.data->0@.take(self.len as int)
        }
    }

    /// Whether the string has a length but no data.
    pub open spec fn missing(self) -> bool {
        self.len > 0 && self.data is None
    }

    /// Whether two strings have the same length and the same data.
    pub open spec fn same(self, other: NativeString) -> bool {
        &&& self.len == other.len
        &&& self.data is Some == other.data is Some
        &&& self.data is Some ==> self.data->0@ == other.data->0@
    }

    /// A string with the same length and the same data.
    pub fn duplicate(&self) -> (result: NativeString)
        ensures
            result.same(*self),
            result.bytes() == self.bytes(),
            result.readable() == self.readable(),
            result.missing() == self.missing(),
    {
        let data = match &self.data {
            Some(bytes) => Some(slice_to_vec(bytes.as_slice())),
            None => None,
        };
        NativeString { len: self.len, data }
    }

    /// The string without bytes and with a null data pointer.
    pub fn empty() -> (result: NativeString)
        ensures
            result == (NativeString { len: 0, data: None }),
    {
        NativeString { len: 0, data: None }
    }

    /// The bytes of a string that has its data.
    pub fn as_bytes(&self) -> (result: &[u8])
        requires
            self.readable(),
            !self.missing(),
        ensures
            result@ == self.bytes(),
    {
        match &self.data {
            Some(data) => {
                let bytes = slice_subrange(data.as_slice(), 0, self.len);
                assert(bytes@ =~= self.bytes());
                bytes
            },
            None => {
                let empty: &[u8] = &[];
                assert(empty@ =~= self.bytes());
                empty
            },
        }
    }
}

/// The client connection of a request.
#[derive(Debug)]
pub struct NativeConnection {
    /// Logger of the connection, by its address.
    pub log: Pointer<usize>,
    /// Bytes sent to the client.
    pub sent: i64,
    /// The request that the connection is working on.
    pub data: usize,
    /// Write event of the connection, by its address.
    pub write: Pointer<usize>,
}

/// Failure while reading a client connection.
#[derive(Clone, Copy, Debug, PartialEq, Eq, Structural)]
pub enum ConnectionError {
    /// The connection pointer is null.
    NullConnection,
    /// The connection pointer is misaligned.
    MisalignedConnection,
    /// The logger pointer is misaligned.
    MisalignedLog,
    /// The sent-byte counter is negative.
    NegativeBytesSent,
    /// The connection has no write event.
    MissingWriteEvent,
    /// The write-event pointer is misaligned.
    MisalignedWriteEvent,
}

/// Identity of an nginx module.
#[derive(Clone, Copy, Debug, PartialEq, Eq, Structural)]
pub struct ModuleDescriptor {
    pub type_: u32,
    pub index: usize,
    pub ctx_index: usize,
}

/// Failure while resolving a module's configuration or context slot.
#[derive(Clone, Copy, Debug, PartialEq, Eq, Structural)]
pub enum HttpConfigError {
    /// The module is not an HTTP module.
    WrongModuleType,
    /// The module's indexes lie outside the slots that nginx allocated.
    ModuleIndexOutOfBounds,
    /// The configuration slot array is misaligned.
    MisalignedSlots,
}

/// Handler that nginx runs when a request becomes writable.
#[derive(Clone, Copy, Debug, PartialEq, Eq, Structural)]
pub enum WriteEventHandler {
    /// The phase engine, `ngx_http_core_run_phases`.
    CoreRunPhases,
    /// Another handler, by its address.
    Other(usize),
}

/// Core location configuration that the request logic reads.
#[derive(Clone, Copy, Debug, PartialEq, Eq, Structural)]
pub struct CoreLocation {
    /// Client-body temporary path, by its address.
    pub client_body_temp_path: usize,
}

/// A file cleanup entry of a pool.
#[derive(Clone, Copy, Debug, PartialEq, Eq, Structural)]
pub struct FileCleanup {
    /// Descriptor that the entry closes.
    pub fd: i32,
    /// Whether the entry still has its file handler.
    pub armed: bool,
}

/// A request pool.
#[derive(Debug)]
pub struct NativePool {
    /// Storage that the pool still hands out, the next block last. A request beyond it is refused.
    ///
    /// Every operation of this crate stops at the first refusal, so this is all of the allocator
    /// that its outcome depends on.
    pub blocks: Vec<usize>,
    /// The context registry that a cleanup entry of the pool owns.
    pub registry: Option<RequestContextRegistry>,
    /// Contexts whose cleanup entry is linked, by their address.
    pub contexts: Vec<usize>,
    /// File cleanup entries.
    pub files: Vec<FileCleanup>,
}

impl NativePool {
    /// What is left of `blocks` once `count` of them were asked for.
    pub open spec fn spend(blocks: Seq<usize>, count: nat) -> Seq<usize> {
        if count <= blocks.len() {
            blocks.take(blocks.len() - count)
        } else {
            Seq::empty()
        }
    }

    /// Whether `after` is what can be left of `before` once some blocks were handed out.
    pub open spec fn spent_from(after: Seq<usize>, before: Seq<usize>) -> bool {
        after.len() <= before.len() && after == before.take(after.len() as int)
    }

    /// Asking for `a` blocks and then for `b` is asking for `a + b`, and what is left is a part of
    /// what there was.
    pub proof fn lemma_spend(blocks: Seq<usize>, a: nat, b: nat)
        ensures
            Self::spend(Self::spend(blocks, a), b) == Self::spend(blocks, a + b),
            Self::spent_from(Self::spend(blocks, a), blocks),
            Self::spent_from(Self::spend(blocks, a + b), blocks),
            Self::spend(blocks, 0) == blocks,
    {
        assert(Self::spend(Self::spend(blocks, a), b) =~= Self::spend(blocks, a + b));
        assert(Self::spend(blocks, a) =~= blocks.take(Self::spend(blocks, a).len() as int));
        assert(Self::spend(blocks, a + b) =~= blocks.take(Self::spend(blocks, a + b).len() as int));
        assert(Self::spend(blocks, 0) =~= blocks);
    }

    /// A pool that hands out `blocks`, the last one first.
    pub fn new(blocks: Vec<usize>) -> (result: NativePool)
        ensures
            result.blocks == blocks,
            result.registry is None,
            result.contexts@.len() == 0,
            result.files@.len() == 0,
    {
        NativePool { blocks, registry: None, contexts: Vec::new(), files: Vec::new() }
    }

    /// A block of storage, unless the pool refuses it.
    pub fn allocate(&mut self) -> (result: Option<usize>)
        ensures
            final(self).blocks@ == Self::spend(old(self).blocks@, 1),
            *final(self) == (NativePool { blocks: final(self).blocks, ..*old(self) }),
            result == (if old(self).blocks@.len() == 0 {
                None
            } else {
                Some(old(self).blocks@.last())
            }),
    {
        let ghost before = self.blocks@;
        let block = self.blocks.pop();
        assert(self.blocks@ =~= Self::spend(before, 1));
        block
    }
}

/// A request as nginx holds it.
#[derive(Debug)]
pub struct NativeRequest {
    pub signature: u32,
    /// Root of the request's parent chain, by its address.
    pub main: usize,
    /// Parent of a subrequest, by its address.
    pub parent: usize,
    /// Request pool, by its address.
    pub pool: usize,
    pub connection: Pointer<NativeConnection>,
    /// References that keep a main request alive.
    pub count: u16,
    pub terminated: bool,
    pub internal: bool,
    pub header_only: bool,
    pub keepalive: bool,
    pub header_sent: bool,
    pub expect_trailers: bool,
    pub chunked: bool,
    pub subrequests: u32,
    pub start_sec: i64,
    pub start_msec: usize,
    pub request_length: i64,
    pub method: usize,
    pub uri: NativeString,
    pub unparsed_uri: NativeString,
    pub phase_handler: isize,
    pub write_event_handler: Option<WriteEventHandler>,
    pub headers_in: NativeHeadersIn,
    pub headers_out: NativeHeadersOut,
    pub request_body: Pointer<NativeBody>,
    /// Module context slots.
    pub ctx: Pointer<Vec<usize>>,
    pub main_conf: Pointer<Vec<usize>>,
    pub srv_conf: Pointer<Vec<usize>>,
    pub loc_conf: Pointer<Vec<usize>>,
    /// Core location configuration, when nginx installed one.
    pub core_location: Option<CoreLocation>,
    /// Values of the indexed variables.
    pub variables: Pointer<VariableStore>,
    /// Upstream that serves the request, by its address.
    pub upstream: usize,
    /// States of the upstream connection attempts.
    pub upstream_states: Pointer<NativeStateArray>,
    /// Owners of the context registries that request termination notifies, the latest first.
    pub cleanup: Vec<usize>,
}

impl NativeRequest {
    /// The request as nginx clears it.
    pub fn zeroed() -> (result: NativeRequest)
        ensures
            result.headers_in.cleared(),
            result.headers_out.cleared(),
            result.cleanup@.len() == 0,
            result == (NativeRequest {
                signature: 0,
                main: 0,
                parent: 0,
                pool: 0,
                connection: Pointer::Null,
                count: 0,
                terminated: false,
                internal: false,
                header_only: false,
                keepalive: false,
                header_sent: false,
                expect_trailers: false,
                chunked: false,
                subrequests: 0,
                start_sec: 0,
                start_msec: 0,
                request_length: 0,
                method: 0,
                uri: NativeString { len: 0, data: None },
                unparsed_uri: NativeString { len: 0, data: None },
                phase_handler: 0,
                write_event_handler: None,
                headers_in: result.headers_in,
                headers_out: result.headers_out,
                request_body: Pointer::Null,
                ctx: Pointer::Null,
                main_conf: Pointer::Null,
                srv_conf: Pointer::Null,
                loc_conf: Pointer::Null,
                core_location: None,
                variables: Pointer::Null,
                upstream: 0,
                upstream_states: Pointer::Null,
                cleanup: result.cleanup,
            }),
    {
        NativeRequest {
            signature: 0,
            main: 0,
            parent: 0,
            pool: 0,
            connection: Pointer::Null,
            count: 0,
            terminated: false,
            internal: false,
            header_only: false,
            keepalive: false,
            header_sent: false,
            expect_trailers: false,
            chunked: false,
            subrequests: 0,
            start_sec: 0,
            start_msec: 0,
            request_length: 0,
            method: 0,
            uri: NativeString::empty(),
            unparsed_uri: NativeString::empty(),
            phase_handler: 0,
            write_event_handler: None,
            headers_in: NativeHeadersIn::zeroed(),
            headers_out: NativeHeadersOut::zeroed(),
            request_body: Pointer::Null,
            ctx: Pointer::Null,
            main_conf: Pointer::Null,
            srv_conf: Pointer::Null,
            loc_conf: Pointer::Null,
            core_location: None,
            variables: Pointer::Null,
            upstream: 0,
            upstream_states: Pointer::Null,
            cleanup: Vec::new(),
        }
    }
}

/// All native objects that the operations of one callback can reach.
pub struct NativeState {
    pub requests: HashMap<usize, NativeRequest>,
    pub pools: HashMap<usize, NativePool>,
    /// HTTP core main configurations, by their addresses.
    pub core_mains: HashMap<usize, NativeCoreMain>,
    /// Upstreams of requests, by their addresses.
    pub upstreams: HashMap<usize, NativeUpstream>,
    /// Callback slots, by the address of the module server configuration that holds each.
    pub callback_slots: HashMap<usize, UpstreamCallbackSlot>,
    /// Number of modules that nginx loaded.
    pub max_module: usize,
    /// Number of HTTP modules that nginx loaded.
    pub http_max_module: usize,
    /// The HTTP core module.
    pub core_module: ModuleDescriptor,
    /// Identity of the next context registry.
    pub next_owner: usize,
}

/// A call into nginx that completes an operation of this crate.
#[derive(Clone, Copy, Debug, PartialEq, Eq, Structural)]
pub enum NginxCall {
    /// `ngx_http_finalize_request`.
    FinalizeRequest { request: usize, status: isize },
    /// `ngx_http_core_run_phases`.
    CoreRunPhases { request: usize },
    /// `ngx_http_send_header`.
    SendHeader { request: usize },
    /// `ngx_http_output_filter` on the chain that the operation was given.
    OutputFilter { request: usize },
    /// Posts the connection's write event to the next event cycle.
    PostWriteEvent { event: usize },
    /// `ngx_http_named_location`.
    NamedLocation { request: usize },
    /// `ngx_http_internal_redirect`.
    InternalRedirect { request: usize },
    /// `ngx_http_read_client_request_body` with a callback, by its address.
    ReadClientRequestBody { request: usize, callback: usize },
    /// `ngx_http_discard_request_body`.
    DiscardRequestBody { request: usize },
    /// `ngx_http_subrequest` with the strings and the handler of a pending subrequest.
    HttpSubrequest { request: usize, flags: usize },
    /// `ngx_http_get_indexed_variable`.
    GetIndexedVariable { request: usize, index: usize },
    /// `ngx_http_get_flushed_variable`.
    GetFlushedVariable { request: usize, index: usize },
}

impl NativeState {
    /// Whether the address `pointer` may hold a native structure.
    pub open spec fn aligned(pointer: usize) -> bool {
        pointer % NATIVE_ALIGN == 0
    }

    /// Whether an address that may be followed leads to a request of the state.
    pub open spec fn resolves(self, pointer: usize) -> bool {
        pointer != 0 && Self::aligned(pointer) ==> self.requests@.contains_key(pointer)
    }

    /// Whether the links of every request lead to requests of the state.
    pub open spec fn linked(self) -> bool {
        forall|raw: usize| #[trigger]
            self.requests@.contains_key(raw) ==> {
                &&& self.resolves(self.requests@[raw].main)
                &&& self.resolves(self.requests@[raw].parent)
            }
    }

    /// Whether `raw` is a request of a linked state.
    pub open spec fn live(self, raw: usize) -> bool {
        &&& self.linked()
        &&& self.requests@.contains_key(raw)
    }

    /// Whether the state holds what `before` held.
    pub open spec fn unchanged(self, before: NativeState) -> bool {
        &&& self.requests@ == before.requests@
        &&& self.pools@ == before.pools@
        &&& self == (NativeState { requests: self.requests, pools: self.pools, ..before })
    }

    /// Whether the pools are those of `before`, but that the one at `pool` may have handed out
    /// blocks.
    pub open spec fn drew_from(self, before: NativeState, pool: usize) -> bool {
        &&& before.pools@.contains_key(pool)
        &&& self.pools@ == before.pools@.insert(pool, self.pools@[pool])
        &&& self.pools@[pool] == (NativePool {
            blocks: self.pools@[pool].blocks,
            ..before.pools@[pool]
        })
        &&& NativePool::spent_from(self.pools@[pool].blocks@, before.pools@[pool].blocks@)
    }

    /// Whether the pools are those of `before`, but that the one at `pool` handed out `count`
    /// blocks.
    pub open spec fn drew(self, before: NativeState, pool: usize, count: nat) -> bool {
        &&& self.drew_from(before, pool)
        &&& self.pools@[pool].blocks@ == NativePool::spend(before.pools@[pool].blocks@, count)
    }

    /// The requests once the one at `raw` has `count` references.
    pub open spec fn with_count(self, raw: usize, count: u16) -> Map<usize, NativeRequest> {
        self.requests@.insert(raw, (NativeRequest { count, ..self.requests@[raw] }))
    }

    /// A state without requests and pools.
    pub fn new(max_module: usize, http_max_module: usize) -> (result: NativeState)
        ensures
            result.requests@ == Map::<usize, NativeRequest>::empty(),
            result.pools@ == Map::<usize, NativePool>::empty(),
            result.core_mains@ == Map::<usize, NativeCoreMain>::empty(),
            result.upstreams@ == Map::<usize, NativeUpstream>::empty(),
            result.callback_slots@ == Map::<usize, UpstreamCallbackSlot>::empty(),
            result.max_module == max_module,
            result.http_max_module == http_max_module,
            result.core_module == (ModuleDescriptor {
                type_: NGX_HTTP_MODULE,
                index: 0,
                ctx_index: 0,
            }),
            result.next_owner == 1,
    {
        NativeState {
            requests: HashMap::new(),
            pools: HashMap::new(),
            core_mains: HashMap::new(),
            upstreams: HashMap::new(),
            callback_slots: HashMap::new(),
            max_module,
            http_max_module,
            core_module: ModuleDescriptor { type_: NGX_HTTP_MODULE, index: 0, ctx_index: 0 },
            next_owner: 1,
        }
    }

    /// The request at `raw`.
    pub fn request(&self, raw: usize) -> (result: &NativeRequest)
        requires
            self.requests@.contains_key(raw),
        ensures
            *result == self.requests@[raw],
    {
        broadcast use vstd::std_specs::hash::group_hash_axioms;

        self.requests.get(&raw).unwrap()
    }

    /// Removes the request at `raw`, to be put back changed.
    pub fn take_request(&mut self, raw: usize) -> (result: NativeRequest)
        requires
            old(self).requests@.contains_key(raw),
        ensures
            result == old(self).requests@[raw],
            final(self).requests@ == old(self).requests@.remove(raw),
            *final(self) == (NativeState { requests: final(self).requests, ..*old(self) }),
    {
        broadcast use vstd::std_specs::hash::group_hash_axioms;

        self.requests.remove(&raw).unwrap()
    }

    /// Puts a request at `raw`.
    pub fn put_request(&mut self, raw: usize, request: NativeRequest)
        ensures
            final(self).requests@ == old(self).requests@.insert(raw, request),
            *final(self) == (NativeState { requests: final(self).requests, ..*old(self) }),
    {
        broadcast use vstd::std_specs::hash::group_hash_axioms;

        self.requests.insert(raw, request);
    }

    /// The pool at `raw`.
    pub fn pool(&self, raw: usize) -> (result: &NativePool)
        requires
            self.pools@.contains_key(raw),
        ensures
            *result == self.pools@[raw],
    {
        broadcast use vstd::std_specs::hash::group_hash_axioms;

        self.pools.get(&raw).unwrap()
    }

    /// Removes the pool at `raw`, to be put back changed.
    pub fn take_pool(&mut self, raw: usize) -> (result: NativePool)
        requires
            old(self).pools@.contains_key(raw),
        ensures
            result == old(self).pools@[raw],
            final(self).pools@ == old(self).pools@.remove(raw),
            *final(self) == (NativeState { pools: final(self).pools, ..*old(self) }),
    {
        broadcast use vstd::std_specs::hash::group_hash_axioms;

        self.pools.remove(&raw).unwrap()
    }

    /// Puts a pool at `raw`.
    pub fn put_pool(&mut self, raw: usize, pool: NativePool)
        ensures
            final(self).pools@ == old(self).pools@.insert(raw, pool),
            *final(self) == (NativeState { pools: final(self).pools, ..*old(self) }),
    {
        broadcast use vstd::std_specs::hash::group_hash_axioms;

        self.pools.insert(raw, pool);
    }

    /// The HTTP core main configuration at `raw`.
    pub fn core_main(&self, raw: usize) -> (result: &NativeCoreMain)
        requires
            self.core_mains@.contains_key(raw),
        ensures
            *result == self.core_mains@[raw],
    {
        broadcast use vstd::std_specs::hash::group_hash_axioms;

        self.core_mains.get(&raw).unwrap()
    }

    /// Removes the HTTP core main configuration at `raw`, to be put back changed.
    pub fn take_core_main(&mut self, raw: usize) -> (result: NativeCoreMain)
        requires
            old(self).core_mains@.contains_key(raw),
        ensures
            result == old(self).core_mains@[raw],
            final(self).core_mains@ == old(self).core_mains@.remove(raw),
            *final(self) == (NativeState { core_mains: final(self).core_mains, ..*old(self) }),
    {
        broadcast use vstd::std_specs::hash::group_hash_axioms;

        self.core_mains.remove(&raw).unwrap()
    }

    /// Puts an HTTP core main configuration at `raw`.
    pub fn put_core_main(&mut self, raw: usize, core_main: NativeCoreMain)
        ensures
            final(self).core_mains@ == old(self).core_mains@.insert(raw, core_main),
            *final(self) == (NativeState { core_mains: final(self).core_mains, ..*old(self) }),
    {
        broadcast use vstd::std_specs::hash::group_hash_axioms;

        self.core_mains.insert(raw, core_main);
    }

    /// The upstream at `raw`.
    pub fn upstream(&self, raw: usize) -> (result: NativeUpstream)
        requires
            self.upstreams@.contains_key(raw),
        ensures
            result == self.upstreams@[raw],
    {
        broadcast use vstd::std_specs::hash::group_hash_axioms;

        *self.upstreams.get(&raw).unwrap()
    }

    /// Puts an upstream at `raw`.
    pub fn put_upstream(&mut self, raw: usize, upstream: NativeUpstream)
        ensures
            final(self).upstreams@ == old(self).upstreams@.insert(raw, upstream),
            *final(self) == (NativeState { upstreams: final(self).upstreams, ..*old(self) }),
    {
        broadcast use vstd::std_specs::hash::group_hash_axioms;

        self.upstreams.insert(raw, upstream);
    }

    /// The callback slot that the module server configuration at `raw` holds.
    pub fn callback_slot(&self, raw: usize) -> (result: UpstreamCallbackSlot)
        requires
            self.callback_slots@.contains_key(raw),
        ensures
            result == self.callback_slots@[raw],
    {
        broadcast use vstd::std_specs::hash::group_hash_axioms;

        *self.callback_slots.get(&raw).unwrap()
    }

    /// Puts a callback slot into the module server configuration at `raw`.
    pub fn put_callback_slot(&mut self, raw: usize, slot: UpstreamCallbackSlot)
        ensures
            final(self).callback_slots@ == old(self).callback_slots@.insert(raw, slot),
            *final(self) == (NativeState { callback_slots: final(self).callback_slots, ..*old(self) }),
    {
        broadcast use vstd::std_specs::hash::group_hash_axioms;

        self.callback_slots.insert(raw, slot);
    }

    /// Sets the reference count of the request at `raw`.
    pub fn set_count(&mut self, raw: usize, count: u16)
        requires
            old(self).requests@.contains_key(raw),
        ensures
            final(self).requests@ == old(self).with_count(raw, count),
            *final(self) == (NativeState { requests: final(self).requests, ..*old(self) }),
    {
        let mut request = self.take_request(raw);
        request.count = count;
        self.put_request(raw, request);
        assert(self.requests@ =~= old(self).with_count(raw, count));
    }
}

} // verus!
