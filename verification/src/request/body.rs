//! Request bodies: checked views and the builder that replaces one.

use vstd::prelude::*;

use crate::buffer::{
    BufferError, BufferFlags, ChainError, NativeBuffer, NativeChain, PoolBuffer, PoolChain,
};
use crate::native::{NativePool, NativeRequest, NativeState, Pointer};
use crate::request::header_list::{
    append_header, build_pool_header, disable_framing_before, repair_header_list_last,
};
use crate::request::header_slots::{HeaderSlot, NativeHeadersIn};
use crate::request::headers::{
    checked_header_list, EntryAt, HeaderBuildError, HeaderListError, HttpHeaderSource, NativeHeader,
    NativeList,
};
use crate::request::view::{RequestError, RequestRef, RequestRefMut};

verus! {

/// A request body as nginx holds it.
#[derive(Debug)]
pub struct NativeBody {
    /// The buffer chain.
    pub bufs: Pointer<NativeChain>,
    /// Whether the body has a temporary file.
    pub temp_file: bool,
}

/// Failure returned while accessing a checked nginx request body.
#[derive(Clone, Copy, Debug, PartialEq, Eq, Structural)]
pub enum RequestBodyError {
    /// The request-body pointer is misaligned.
    MisalignedBody,
    /// The request-body chain is malformed.
    Chain(ChainError),
}

impl From<ChainError> for RequestBodyError {
    fn from(error: ChainError) -> (result: Self) {
        RequestBodyError::Chain(error)
    }
}

impl vstd::std_specs::convert::FromSpecImpl<ChainError> for RequestBodyError {
    open spec fn obeys_from_spec() -> bool {
        true
    }

    open spec fn from_spec(error: ChainError) -> Self {
        RequestBodyError::Chain(error)
    }
}

/// Checked aggregate size of an nginx request body.
#[derive(Clone, Copy, Debug, PartialEq, Eq, Structural)]
pub struct RequestBodySize {
    pub bytes: usize,
    pub saturated: bool,
}

impl RequestBodySize {
    /// The size of `total` bytes.
    pub open spec fn of(total: nat) -> RequestBodySize {
        RequestBodySize {
            bytes: if total > usize::MAX {
                usize::MAX
            } else {
                total as usize
            },
            saturated: total > usize::MAX,
        }
    }

    /// Returns the aggregate size, or [`usize::MAX`] after arithmetic saturation.
    pub fn bytes(self) -> (result: usize)
        ensures
            result == self.bytes,
    {
        self.bytes
    }

    /// Returns whether the aggregate size exceeded [`usize::MAX`].
    pub fn is_saturated(self) -> (result: bool)
        ensures
            result == self.saturated,
    {
        self.saturated
    }
}

/// Checked view over a nullable buffer chain.
#[derive(Clone, Copy, Debug)]
pub struct ChainRef<'callback> {
    pub chain: Option<&'callback NativeChain>,
}

impl<'callback> ChainRef<'callback> {
    /// The links of the chain.
    pub open spec fn links(self) -> Seq<Pointer<NativeBuffer>> {
        match self.chain {
            Some(chain) => chain@,
            None => Seq::empty(),
        }
    }

    /// What is wrong with a link.
    pub open spec fn link_fault(link: Pointer<NativeBuffer>) -> Option<ChainError> {
        match link {
            Pointer::Null => Some(ChainError::NullBuffer),
            Pointer::Misaligned => Some(ChainError::MisalignedBuffer),
            Pointer::To(buffer) => match buffer.measured() {
                Err(error) => Some(ChainError::Buffer(error)),
                Ok(_) => None,
            },
        }
    }

    /// What is wrong with the first bad one of `links`.
    pub open spec fn fault(links: Seq<Pointer<NativeBuffer>>) -> Option<ChainError>
        decreases links.len(),
    {
        if links.len() == 0 {
            None
        } else {
            match Self::fault(links.drop_last()) {
                Some(error) => Some(error),
                None => Self::link_fault(links.last()),
            }
        }
    }

    /// Number of bytes that `links` hold.
    pub open spec fn total(links: Seq<Pointer<NativeBuffer>>) -> nat
        decreases links.len(),
    {
        if links.len() == 0 {
            0
        } else {
            Self::total(links.drop_last()) + match links.last() {
                Pointer::To(buffer) => buffer.size(),
                _ => 0,
            }
        }
    }

    /// Views a chain pointer.
    pub fn from_raw(chain: &'callback Pointer<NativeChain>) -> (result: Result<Self, ChainError>)
        ensures
            match *chain {
                Pointer::Null => result matches Ok(view) && view.links().len() == 0,
                Pointer::Misaligned => result matches Err(ChainError::MisalignedLink),
                Pointer::To(links) => result matches Ok(view) && view.links() == links@,
            },
    {
        match chain {
            Pointer::Null => Ok(ChainRef { chain: None }),
            Pointer::Misaligned => Err(ChainError::MisalignedLink),
            Pointer::To(links) => Ok(ChainRef { chain: Some(links) }),
        }
    }

    /// Number of links.
    pub fn len(&self) -> (result: usize)
        ensures
            result == self.links().len(),
    {
        match self.chain {
            Some(chain) => chain.len(),
            None => 0,
        }
    }

    /// The buffer of link `index`.
    pub fn get(&self, index: usize) -> (result: Result<&'callback NativeBuffer, ChainError>)
        requires
            index < self.links().len(),
        ensures
            match self.links()[index as int] {
                Pointer::Null => result matches Err(ChainError::NullBuffer),
                Pointer::Misaligned => result matches Err(ChainError::MisalignedBuffer),
                Pointer::To(buffer) => result matches Ok(b) && *b == buffer,
            },
    {
        let chain = self.chain.unwrap();
        match &chain[index] {
            Pointer::Null => Err(ChainError::NullBuffer),
            Pointer::Misaligned => Err(ChainError::MisalignedBuffer),
            Pointer::To(buffer) => Ok(buffer),
        }
    }

    /// The first fault of a sequence is the first fault of any prefix that has one.
    pub proof fn lemma_fault_of_prefix(links: Seq<Pointer<NativeBuffer>>, count: int)
        requires
            0 <= count <= links.len(),
            Self::fault(links.take(count)) is Some,
        ensures
            Self::fault(links) == Self::fault(links.take(count)),
        decreases links.len(),
    {
        if count < links.len() {
            assert(links.drop_last().take(count) =~= links.take(count));
            Self::lemma_fault_of_prefix(links.drop_last(), count);
        } else {
            assert(links.take(count) =~= links);
        }
    }
}

/// Callback-scoped checked view over an nginx request body.
#[derive(Clone, Copy, Debug)]
pub struct RequestBodyRef<'callback> {
    pub raw: &'callback NativeBody,
}

impl NativeBody {
    /// The links of the body's chain, or what is wrong with the chain pointer.
    pub open spec fn links(self) -> Result<Seq<Pointer<NativeBuffer>>, RequestBodyError> {
        match self.bufs {
            Pointer::Null => Ok(Seq::empty()),
            Pointer::Misaligned => Err(RequestBodyError::Chain(ChainError::MisalignedLink)),
            Pointer::To(links) => Ok(links@),
        }
    }

    /// The size of the body, or what is wrong with its chain.
    pub open spec fn measured(self) -> Result<RequestBodySize, RequestBodyError> {
        match self.links() {
            Err(error) => Err(error),
            Ok(links) => match ChainRef::fault(links) {
                Some(error) => Err(RequestBodyError::Chain(error)),
                None => Ok(RequestBodySize::of(ChainRef::total(links))),
            },
        }
    }
}

impl<'callback> RequestBodyRef<'callback> {
    /// Views a request-body pointer.
    pub fn from_raw(body: &'callback Pointer<NativeBody>) -> (result: Result<
        Option<Self>,
        RequestBodyError,
    >)
        ensures
            match *body {
                Pointer::Null => result matches Ok(None),
                Pointer::Misaligned => result matches Err(RequestBodyError::MisalignedBody),
                Pointer::To(body) => result matches Ok(Some(view)) && *view.raw == body,
            },
    {
        match body {
            Pointer::Null => Ok(None),
            Pointer::Misaligned => Err(RequestBodyError::MisalignedBody),
            Pointer::To(raw) => Ok(Some(RequestBodyRef { raw })),
        }
    }

    /// Returns the checked nullable nginx chain stored by this request body.
    pub fn chain(&self) -> (result: Result<ChainRef<'callback>, RequestBodyError>)
        ensures
            match self.raw.links() {
                Err(error) => result matches Err(e) && e == error,
                Ok(links) => result matches Ok(chain) && chain.links() == links,
            },
    {
        match ChainRef::from_raw(&self.raw.bufs) {
            Ok(chain) => {
                assert(self.raw.links() matches Ok(links) && chain.links() =~= links);
                Ok(chain)
            },
            Err(error) => Err(RequestBodyError::from(error)),
        }
    }

    /// Returns the aggregate nginx-visible body size without overflowing `usize`.
    ///
    /// Validation continues after saturation so a malformed later link still returns an error.
    pub fn size(&self) -> (result: Result<RequestBodySize, RequestBodyError>)
        ensures
            result == self.raw.measured(),
    {
        let chain = match self.chain() {
            Ok(chain) => chain,
            Err(error) => return Err(error),
        };
        let ghost links = chain.links();
        let mut bytes: usize = 0;
        let mut saturated = false;
        let mut index: usize = 0;
        assert(links.take(0) =~= Seq::empty());
        while index < chain.len()
            invariant
                index <= links.len(),
                links == chain.links(),
                self.raw.links() == Ok::<Seq<Pointer<NativeBuffer>>, RequestBodyError>(links),
                ChainRef::fault(links.take(index as int)) is None,
                (RequestBodySize { bytes, saturated }) == RequestBodySize::of(
                    ChainRef::total(links.take(index as int)),
                ),
            decreases links.len() - index,
        {
            proof {
                assert(links.take(index + 1).drop_last() =~= links.take(index as int));
                assert(links.take(index + 1).last() == links[index as int]);
                if ChainRef::fault(links.take(index + 1)) is Some {
                    ChainRef::lemma_fault_of_prefix(links, index + 1);
                }
            }
            let buffer = match chain.get(index) {
                Ok(buffer) => buffer,
                Err(error) => return Err(RequestBodyError::from(error)),
            };
            let length = match buffer.len() {
                Ok(length) => length,
                Err(error) => return Err(RequestBodyError::from(ChainError::from(error))),
            };
            match bytes.checked_add(length) {
                Some(total) => {
                    bytes = total;
                },
                None => {
                    bytes = usize::MAX;
                    saturated = true;
                },
            }
            index = index + 1;
        }
        assert(links.take(index as int) =~= links);
        Ok(RequestBodySize { bytes, saturated })
    }
}

/// A body size is saturated exactly when the links hold more than [`usize::MAX`] bytes, and is
/// exact otherwise.
pub proof fn law_body_size_saturates(body: NativeBody)
    requires
        body.measured() is Ok,
    ensures
        ({
            let size = body.measured()->Ok_0;
            let total = ChainRef::total(body.links()->Ok_0);
            &&& size.saturated == (total > usize::MAX)
            &&& if size.saturated {
                size.bytes == usize::MAX
            } else {
                size.bytes == total
            }
        }),
{
}

/// Failure returned while preparing a replacement request body and its framing headers.
#[derive(Clone, Copy, Debug, PartialEq, Eq, Structural)]
pub enum RequestBodyBuildError {
    /// The request could not provide a usable pool.
    Request(RequestError),
    /// Existing input headers are invalid.
    HeaderList(HeaderListError),
    /// A replacement input-header candidate could not be prepared.
    HeaderBuild(HeaderBuildError),
    /// A pool-owned body buffer could not be prepared.
    Buffer(BufferError),
    /// A pool-owned body chain could not be prepared.
    Chain(ChainError),
    /// The aggregate body size overflowed `usize`.
    LengthOverflow,
    /// The aggregate body size cannot be represented by nginx's `off_t`.
    ContentLengthTooLarge,
    /// Nginx could not allocate the request-body structure.
    Allocation,
}

impl From<RequestError> for RequestBodyBuildError {
    fn from(error: RequestError) -> (result: Self) {
        RequestBodyBuildError::Request(error)
    }
}

impl vstd::std_specs::convert::FromSpecImpl<RequestError> for RequestBodyBuildError {
    open spec fn obeys_from_spec() -> bool {
        true
    }

    open spec fn from_spec(error: RequestError) -> Self {
        RequestBodyBuildError::Request(error)
    }
}

impl From<HeaderListError> for RequestBodyBuildError {
    fn from(error: HeaderListError) -> (result: Self) {
        RequestBodyBuildError::HeaderList(error)
    }
}

impl vstd::std_specs::convert::FromSpecImpl<HeaderListError> for RequestBodyBuildError {
    open spec fn obeys_from_spec() -> bool {
        true
    }

    open spec fn from_spec(error: HeaderListError) -> Self {
        RequestBodyBuildError::HeaderList(error)
    }
}

impl From<HeaderBuildError> for RequestBodyBuildError {
    fn from(error: HeaderBuildError) -> (result: Self) {
        RequestBodyBuildError::HeaderBuild(error)
    }
}

impl vstd::std_specs::convert::FromSpecImpl<HeaderBuildError> for RequestBodyBuildError {
    open spec fn obeys_from_spec() -> bool {
        true
    }

    open spec fn from_spec(error: HeaderBuildError) -> Self {
        RequestBodyBuildError::HeaderBuild(error)
    }
}

impl From<BufferError> for RequestBodyBuildError {
    fn from(error: BufferError) -> (result: Self) {
        RequestBodyBuildError::Buffer(error)
    }
}

impl vstd::std_specs::convert::FromSpecImpl<BufferError> for RequestBodyBuildError {
    open spec fn obeys_from_spec() -> bool {
        true
    }

    open spec fn from_spec(error: BufferError) -> Self {
        RequestBodyBuildError::Buffer(error)
    }
}

impl From<ChainError> for RequestBodyBuildError {
    fn from(error: ChainError) -> (result: Self) {
        RequestBodyBuildError::Chain(error)
    }
}

impl vstd::std_specs::convert::FromSpecImpl<ChainError> for RequestBodyBuildError {
    open spec fn obeys_from_spec() -> bool {
        true
    }

    open spec fn from_spec(error: ChainError) -> Self {
        RequestBodyBuildError::Chain(error)
    }
}

/// Request-pool candidate for a non-null HTTP request body.
#[derive(Debug)]
pub struct RequestBodyCandidate {
    /// The pool, by its address.
    pub pool: usize,
    pub chain: PoolChain,
    pub length: usize,
}

impl RequestBodyCandidate {
    /// Number of bytes that `buffers` hold.
    pub open spec fn total(buffers: Seq<NativeBuffer>) -> nat
        decreases buffers.len(),
    {
        if buffers.len() == 0 {
            0
        } else {
            Self::total(buffers.drop_last()) + buffers.last().size()
        }
    }

    /// Whether the candidate's chain belongs to its pool, its buffers are valid, and its length is
    /// what they hold.
    pub open spec fn wf(self) -> bool {
        &&& self.chain.pool == self.pool
        &&& forall|i: int|
            0 <= i < self.chain.buffers@.len() ==> (
            #[trigger] self.chain.buffers@[i]).measured() is Ok
        &&& self.length == Self::total(self.chain.buffers@)
    }

    /// A candidate without bytes.
    pub fn new(pool: usize) -> (result: Self)
        ensures
            result.wf(),
            result.pool == pool,
            result.chain.buffers@.len() == 0,
            result.length == 0,
    {
        RequestBodyCandidate { pool, chain: PoolChain::new(pool), length: 0 }
    }

    /// Whether the candidate is `before` with `buffer` behind its buffers.
    pub open spec fn grown(self, before: RequestBodyCandidate, buffer: NativeBuffer) -> bool {
        &&& self.pool == before.pool
        &&& self.chain.buffers@ == before.chain.buffers@.push(buffer)
        &&& self.length == before.length + buffer.size()
    }

    /// Copies memory bytes into the request-pool body candidate.
    pub fn append_copy(&mut self, native: &mut NativeState, bytes: &[u8]) -> (result: Result<
        (),
        RequestBodyBuildError,
    >)
        requires
            old(self).wf(),
            old(native).pools@.contains_key(old(self).pool),
        ensures
            *final(native) == (NativeState { pools: final(native).pools, ..*old(native) }),
            final(self).wf(),
            final(self).pool == old(self).pool,
            final(native).drew_from(*old(native), old(self).pool),
            ({
                let blocks = old(native).pools@[old(self).pool].blocks@;
                if bytes@.len() == 0 {
                    &&& result == Ok::<(), RequestBodyBuildError>(())
                    &&& *final(self) == *old(self)
                    &&& final(native).pools@ == old(native).pools@
                } else {
                    match result {
                        Err(error) => {
                            &&& *final(self) == *old(self)
                            &&& if blocks.len() < 2 {
                                error == RequestBodyBuildError::Buffer(BufferError::Allocation)
                            } else if old(self).length + bytes@.len() > usize::MAX {
                                error == RequestBodyBuildError::LengthOverflow
                            } else {
                                &&& error == RequestBodyBuildError::Chain(ChainError::Allocation)
                                &&& blocks.len() == 2
                            }
                        },
                        Ok(_) => {
                            &&& blocks.len() >= 3
                            &&& old(self).length + bytes@.len() <= usize::MAX
                            &&& final(native).drew(*old(native), old(self).pool, 3)
                            &&& final(self).length == old(self).length + bytes@.len()
                            &&& final(self).chain.buffers@.len() == old(
                                self).chain.buffers@.len() + 1
                            &&& final(self).chain.buffers@.drop_last() == old(self).chain.buffers@
                            &&& final(self).chain.buffers@.last().holds() == Ok::<
                                crate::buffer::BufferKind,
                                BufferError,
                            >(crate::buffer::BufferKind::Memory(bytes@))
                            &&& final(self).chain.buffers@.last().file is None
                            &&& final(self).chain.buffers@.last().flags == (BufferFlags {
                                flush: false,
                                sync: false,
                                last_buf: false,
                                last_in_chain: false,
                            })
                        },
                    }
                }
            }),
    {
        let ghost blocks = native.pools@[self.pool].blocks@;
        proof {
            NativePool::lemma_spend(blocks, 0, 0);
            NativePool::lemma_spend(blocks, 2, 1);
            assert(native.pools@ =~= native.pools@.insert(self.pool, native.pools@[self.pool]));
        }
        if bytes.len() == 0 {
            return Ok(());
        }
        let mut pool = native.take_pool(self.pool);
        let copied = pool.copy_buffer(
            bytes,
            BufferFlags { flush: false, sync: false, last_buf: false, last_in_chain: false },
        );
        native.put_pool(self.pool, pool);
        let ghost left = pool.blocks@;
        assert(native.pools@ =~= old(native).pools@.insert(self.pool, pool));
        let buffer = match copied {
            Ok(buffer) => buffer,
            Err(error) => return Err(RequestBodyBuildError::from(error)),
        };
        let result = self.append(native, PoolBuffer { pool: self.pool, buffer });
        proof {
            assert(native.pools@ =~= old(native).pools@.insert(
                self.pool,
                native.pools@[self.pool],
            ));
            crate::request::header_list::lemma_spent_twice(
                native.pools@[self.pool].blocks@,
                left,
                blocks,
            );
            if result is Ok {
                assert(self.chain.buffers@.drop_last() =~= old(self).chain.buffers@);
            }
        }
        result
    }

    /// Appends one request-pool-owned buffer to the body candidate.
    pub fn append(&mut self, native: &mut NativeState, buffer: PoolBuffer) -> (result: Result<
        (),
        RequestBodyBuildError,
    >)
        requires
            old(self).wf(),
            old(native).pools@.contains_key(old(self).pool),
        ensures
            *final(native) == (NativeState { pools: final(native).pools, ..*old(native) }),
            final(self).wf(),
            final(self).pool == old(self).pool,
            final(native).drew_from(*old(native), old(self).pool),
            ({
                let blocks = old(native).pools@[old(self).pool].blocks@;
                match buffer.buffer.measured() {
                    Err(error) => {
                        &&& result == Err::<(), RequestBodyBuildError>(
                            RequestBodyBuildError::Buffer(error),
                        )
                        &&& *final(self) == *old(self)
                        &&& final(native).pools@ == old(native).pools@
                    },
                    Ok(length) => match result {
                        Err(error) => {
                            &&& *final(self) == *old(self)
                            &&& if old(self).length + length > usize::MAX {
                                error == RequestBodyBuildError::LengthOverflow
                            } else if buffer.pool != old(self).pool {
                                error == RequestBodyBuildError::Chain(
                                    ChainError::Buffer(BufferError::ForeignPool),
                                )
                            } else {
                                &&& error == RequestBodyBuildError::Chain(ChainError::Allocation)
                                &&& blocks.len() == 0
                            }
                        },
                        Ok(_) => {
                            &&& old(self).length + length <= usize::MAX
                            &&& buffer.pool == old(self).pool
                            &&& blocks.len() > 0
                            &&& final(native).drew(*old(native), old(self).pool, 1)
                            &&& final(self).grown(*old(self), buffer.buffer)
                        },
                    },
                }
            }),
    {
        proof {
            NativePool::lemma_spend(native.pools@[self.pool].blocks@, 0, 0);
            assert(native.pools@ =~= native.pools@.insert(self.pool, native.pools@[self.pool]));
        }
        let length = match buffer.buffer.len() {
            Ok(length) => length,
            Err(error) => return Err(RequestBodyBuildError::from(error)),
        };
        let total = match self.length.checked_add(length) {
            Some(total) => total,
            None => return Err(RequestBodyBuildError::LengthOverflow),
        };
        let ghost before = *self;
        let ghost added = buffer.buffer;
        let mut pool = native.take_pool(self.pool);
        let appended = self.chain.append(&mut pool, buffer);
        native.put_pool(self.pool, pool);
        assert(native.pools@ =~= old(native).pools@.insert(self.pool, pool));
        match appended {
            Ok(_) => {
                self.length = total;
                proof {
                    assert(self.chain.buffers@.drop_last() =~= before.chain.buffers@);
                    assert forall|i: int| 0 <= i < self.chain.buffers@.len() implies (
                    #[trigger] self.chain.buffers@[i]).measured() is Ok by {
                        if i < before.chain.buffers@.len() {
                            assert(before.chain.buffers@[i].measured() is Ok);
                        }
                    }
                }
                Ok(())
            },
            Err(error) => Err(RequestBodyBuildError::from(error)),
        }
    }

    /// Appends a zero-size control buffer to the request-pool body candidate.
    pub fn append_control(&mut self, native: &mut NativeState, flags: BufferFlags) -> (result:
        Result<(), RequestBodyBuildError>)
        requires
            old(self).wf(),
            old(native).pools@.contains_key(old(self).pool),
        ensures
            *final(native) == (NativeState { pools: final(native).pools, ..*old(native) }),
            final(self).wf(),
            final(self).pool == old(self).pool,
            final(native).drew_from(*old(native), old(self).pool),
            ({
                let blocks = old(native).pools@[old(self).pool].blocks@;
                match result {
                    Err(error) => {
                        &&& *final(self) == *old(self)
                        &&& if blocks.len() == 0 {
                            error == RequestBodyBuildError::Buffer(BufferError::Allocation)
                        } else {
                            &&& error == RequestBodyBuildError::Chain(ChainError::Allocation)
                            &&& blocks.len() == 1
                        }
                    },
                    Ok(_) => {
                        &&& blocks.len() >= 2
                        &&& final(native).drew(*old(native), old(self).pool, 2)
                        &&& final(self).grown(
                            *old(self),
                            (NativeBuffer { memory: None, file: None, flags }),
                        )
                        &&& final(self).length == old(self).length
                    },
                }
            }),
    {
        let ghost blocks = native.pools@[self.pool].blocks@;
        proof {
            NativePool::lemma_spend(blocks, 1, 1);
        }
        let mut pool = native.take_pool(self.pool);
        let made = pool.control_buffer(flags);
        native.put_pool(self.pool, pool);
        let ghost left = pool.blocks@;
        assert(native.pools@ =~= old(native).pools@.insert(self.pool, pool));
        let buffer = match made {
            Ok(buffer) => buffer,
            Err(error) => return Err(RequestBodyBuildError::from(error)),
        };
        let result = self.append(native, PoolBuffer { pool: self.pool, buffer });
        proof {
            assert(native.pools@ =~= old(native).pools@.insert(
                self.pool,
                native.pools@[self.pool],
            ));
            crate::request::header_list::lemma_spent_twice(
                native.pools@[self.pool].blocks@,
                left,
                blocks,
            );
        }
        result
    }
}

impl RequestBodyCandidate {
    /// The links of a chain of `buffers`.
    pub open spec fn linked(buffers: Seq<NativeBuffer>) -> Seq<Pointer<NativeBuffer>> {
        buffers.map_values(|buffer: NativeBuffer| Pointer::To(buffer))
    }

    /// Whether `body` is a request body with the candidate's buffers.
    pub open spec fn is_body(self, body: NativeBody) -> bool {
        &&& !body.temp_file
        &&& body.links() == Ok::<Seq<Pointer<NativeBuffer>>, RequestBodyError>(
            Self::linked(self.chain.buffers@),
        )
        &&& body.bufs is Null == (self.chain.buffers@.len() == 0)
    }

    /// The size of a body made of valid buffers is what they hold.
    proof fn lemma_body_size(buffers: Seq<NativeBuffer>)
        requires
            forall|i: int| 0 <= i < buffers.len() ==> (#[trigger] buffers[i]).measured() is Ok,
        ensures
            ChainRef::fault(Self::linked(buffers)) is None,
            ChainRef::total(Self::linked(buffers)) == Self::total(buffers),
        decreases buffers.len(),
    {
        let links = Self::linked(buffers);
        if buffers.len() > 0 {
            assert(links.drop_last() =~= Self::linked(buffers.drop_last()));
            assert(buffers.last() == buffers[buffers.len() - 1]);
            Self::lemma_body_size(buffers.drop_last());
        }
    }

    /// A body made from a candidate has the candidate's length.
    pub proof fn law_body_has_the_candidate_length(self, body: NativeBody)
        requires
            self.wf(),
            self.is_body(body),
        ensures
            body.measured() == Ok::<RequestBodySize, RequestBodyError>(
                (RequestBodySize { bytes: self.length, saturated: false }),
            ),
    {
        Self::lemma_body_size(self.chain.buffers@);
    }

    /// Makes the request body of the candidate, with storage from the pool.
    pub fn into_raw(self, pool: &mut NativePool) -> (result: Result<
        NativeBody,
        RequestBodyBuildError,
    >)
        ensures
            *final(pool) == (NativePool { blocks: final(pool).blocks, ..*old(pool) }),
            NativePool::spent_from(final(pool).blocks@, old(pool).blocks@),
            match result {
                Err(error) => {
                    &&& error == RequestBodyBuildError::Allocation
                    &&& old(pool).blocks@.len() == 0
                },
                Ok(body) => {
                    &&& old(pool).blocks@.len() > 0
                    &&& final(pool).blocks@ == NativePool::spend(old(pool).blocks@, 1)
                    &&& self.is_body(body)
                },
            },
    {
        proof {
            NativePool::lemma_spend(pool.blocks@, 1, 1);
        }
        if pool.allocate().is_none() {
            return Err(RequestBodyBuildError::Allocation);
        }
        let ghost all = self.chain.buffers@;
        let mut buffers = self.chain.buffers;
        if buffers.len() == 0 {
            assert(Self::linked(all) =~= Seq::empty());
            return Ok(NativeBody { bufs: Pointer::Null, temp_file: false });
        }
        let mut links: NativeChain = Vec::new();
        while buffers.len() > 0
            invariant
                links@ + Self::linked(buffers@) == Self::linked(all),
            decreases buffers@.len(),
        {
            let ghost before = buffers@;
            let ghost placed = links@;
            let buffer = buffers.remove(0);
            links.push(Pointer::To(buffer));
            assert(links@ + Self::linked(buffers@) =~= placed + Self::linked(before));
        }
        assert(links@ =~= Self::linked(all));
        Ok(NativeBody { bufs: Pointer::To(links), temp_file: false })
    }
}

/// The decimal digits of a number.
pub open spec fn decimal(value: nat) -> Seq<u8>
    decreases value,
{
    if value < 10 {
        seq![(48 + value) as u8]
    } else {
        decimal(value / 10).push((48 + value % 10) as u8)
    }
}

/// The number that decimal digits stand for.
pub open spec fn decimal_value(digits: Seq<u8>) -> nat
    decreases digits.len(),
{
    if digits.len() == 0 {
        0
    } else {
        decimal_value(digits.drop_last()) * 10 + (digits.last() - 48) as nat
    }
}

/// Reading the digits of a number gives the number back; all of them are digits.
pub proof fn law_decimal_round_trip(value: nat)
    ensures
        decimal_value(decimal(value)) == value,
        decimal(value).len() > 0,
        forall|i: int| 0 <= i < decimal(value).len() ==> 48 <= #[trigger] decimal(value)[i] <= 57,
    decreases value,
{
    if value < 10 {
        let digits = decimal(value);
        assert(digits.drop_last() =~= Seq::empty());
        assert(decimal_value(digits.drop_last()) == 0);
    } else {
        law_decimal_round_trip(value / 10);
        assert(decimal(value).drop_last() =~= decimal(value / 10));
    }
}

/// A number has at most as many digits as a quarter of it, and one more.
pub proof fn lemma_decimal_len(value: nat)
    ensures
        decimal(value).len() <= value / 4 + 1,
    decreases value,
{
    if value >= 10 {
        lemma_decimal_len(value / 10);
    }
}

/// The decimal digits of a number.
pub fn decimal_bytes(value: usize) -> (result: Vec<u8>)
    ensures
        result@ == decimal(value as nat),
    decreases value,
{
    let digit = (value % 10) as u8 + 48;
    if value < 10 {
        let mut digits: Vec<u8> = Vec::new();
        digits.push(digit);
        assert(digits@ =~= decimal(value as nat));
        return digits;
    }
    let mut digits = decimal_bytes(value / 10);
    digits.push(digit);
    digits
}

/// The header, length and count that a replacement body is published with.
#[derive(Debug)]
pub struct RequestBodyFramingCandidate {
    pub content_length: NativeHeader,
    pub content_length_n: i64,
    pub count: usize,
}

/// The name of the header that tells a body's length.
pub open spec fn content_length_key() -> Seq<u8> {
    vstd::utf8::encode_utf8("Content-Length"@)
}

impl RequestBodyFramingCandidate {
    /// Whether the candidate frames `length` bytes for a request with the input headers `headers`.
    pub open spec fn frames(self, headers: NativeHeadersIn, length: usize) -> bool {
        &&& crate::request::header_list::is_built(
            self.content_length,
            content_length_key(),
            decimal(length as nat),
        )
        &&& self.content_length_n == length
        &&& self.count == headers.count + 1
    }
}

impl NativeHeadersIn {
    /// Why a body of `length` bytes cannot be framed, for reasons other than storage.
    pub open spec fn framing_fault(self, length: usize) -> Option<RequestBodyBuildError> {
        match self.headers.check() {
            Err(error) => Some(RequestBodyBuildError::HeaderList(error)),
            Ok(_) => if self.count == usize::MAX {
                Some(RequestBodyBuildError::HeaderBuild(HeaderBuildError::CountOverflow))
            } else if length > i64::MAX {
                Some(RequestBodyBuildError::ContentLengthTooLarge)
            } else {
                None
            },
        }
    }
}

/// Prepares the framing of a body of `length` bytes.
pub fn request_body_framing_candidate(
    headers: &NativeHeadersIn,
    pool: &mut NativePool,
    length: usize,
) -> (result: Result<RequestBodyFramingCandidate, RequestBodyBuildError>)
    requires
        headers.headers.faithful(),
    ensures
        *final(pool) == (NativePool { blocks: final(pool).blocks, ..*old(pool) }),
        NativePool::spent_from(final(pool).blocks@, old(pool).blocks@),
        match result {
            Err(error) => match headers.framing_fault(length) {
                Some(fault) => error == fault && final(pool).blocks@ == old(pool).blocks@,
                None => {
                    &&& error == RequestBodyBuildError::HeaderBuild(HeaderBuildError::Allocation)
                    &&& old(pool).blocks@.len() < 3
                },
            },
            Ok(candidate) => {
                &&& headers.framing_fault(length) is None
                &&& old(pool).blocks@.len() >= 3
                &&& final(pool).blocks@ == NativePool::spend(old(pool).blocks@, 3)
                &&& candidate.frames(*headers, length)
            },
        },
{
    proof {
        NativePool::lemma_spend(pool.blocks@, 0, 0);
        lemma_content_length_key();
        lemma_decimal_len(length as nat);
    }
    match checked_header_list(&headers.headers, HttpHeaderSource::Input) {
        Ok(_) => {},
        Err(error) => return Err(RequestBodyBuildError::from(error)),
    }
    let count = match headers.count.checked_add(1) {
        Some(count) => count,
        None => return Err(RequestBodyBuildError::from(HeaderBuildError::CountOverflow)),
    };
    if length as u64 > i64::MAX as u64 {
        return Err(RequestBodyBuildError::ContentLengthTooLarge);
    }
    let value = decimal_bytes(length);
    match build_pool_header(pool, "Content-Length".as_bytes(), value.as_slice()) {
        Ok(content_length) => Ok(
            RequestBodyFramingCandidate { content_length, content_length_n: length as i64, count },
        ),
        Err(error) => Err(RequestBodyBuildError::from(error)),
    }
}

/// The Content-Length key is a framing key with its own slot.
pub proof fn lemma_content_length_key()
    ensures
        content_length_key().len() == 14,
        crate::request::header_list::is_framing(content_length_key()),
        HeaderSlot::ContentLength.names(content_length_key()),
        crate::request::header_list::header_blocks(content_length_key()) == 3,
{
    reveal_strlit("Content-Length");
    vstd::utf8::is_ascii_chars_encode_utf8("Content-Length"@);
}

impl NativeHeadersIn {
    /// Whether the headers can be framed or refused: what the list promises can be read, and a
    /// valid list can be appended to.
    pub open spec fn framable(self) -> bool {
        &&& self.headers.faithful()
        &&& self.headers.check() is Ok ==> self.headers.appendable()
        &&& self.slots.wf()
    }

    /// Whether these input headers are `before` with the framing of a body of `length` bytes: the
    /// framing entries of `before` are disabled and a Content-Length entry follows them.
    pub open spec fn framed(self, before: NativeHeadersIn, length: usize) -> bool {
        let earlier = before.headers.placed_entries();
        let entries = self.headers.placed_entries();
        &&& self.headers.appendable()
        &&& self.headers.last == self.headers.parts@.len() - 1
        &&& self.headers.nalloc == before.headers.nalloc
        &&& entries.len() == earlier.len() + 1
        &&& forall|k: int|
            0 <= k < earlier.len() ==> #[trigger] entries[k] == (
                earlier[k].0,
                crate::request::header_list::unframed(earlier[k].1),
            )
        &&& crate::request::header_list::is_built(
            entries.last().1,
            content_length_key(),
            decimal(length as nat),
        )
        &&& self.slots.wf()
        &&& self.slots.chain(HeaderSlot::ContentLength) == seq![entries.last().0]
        &&& forall|slot: HeaderSlot|
            slot != HeaderSlot::ContentLength ==> #[trigger] self.slots.chain(slot)
                == before.slots.chain(slot)
        &&& self.transfer_encoding@.len() == 0
        &&& self.content_length_n == length
        &&& self.count == before.count + 1
        &&& !self.chunked
        &&& self.server == before.server
        &&& self.keep_alive_n == before.keep_alive_n
    }

    /// In framed input headers the new Content-Length header is the only enabled framing header.
    pub proof fn law_one_framing_header(self, before: NativeHeadersIn, length: usize, k: int)
        requires
            self.framed(before, length),
            0 <= k < self.headers.placed_entries().len(),
        ensures
            ({
                let entry = self.headers.placed_entries()[k].1;
                (entry.hash != 0 && crate::request::header_list::is_framing(entry.key.bytes()))
                    == (k == self.headers.placed_entries().len() - 1)
            }),
    {
        lemma_content_length_key();
        crate::request::header_list::lemma_content_length_is_enabled();
        let entries = self.headers.placed_entries();
        let earlier = before.headers.placed_entries();
        assert(entries.last().1.view().hash == entries.last().1.hash);
        assert(entries.last().1.view().key == content_length_key());
        if k < earlier.len() {
            assert(entries[k] == (
                earlier[k].0,
                crate::request::header_list::unframed(earlier[k].1),
            ));
        }
    }

    /// Framed input headers list what was listed before without its framing headers, in order,
    /// then the new Content-Length header. They can be framed again.
    pub proof fn law_framed_headers_are_listed(self, before: NativeHeadersIn, length: usize)
        requires
            self.framed(before, length),
            before.headers.check() is Ok,
            before.headers.enabled().len() < usize::MAX,
        ensures
            self.headers.check() is Ok,
            self.framable(),
            self.headers.enabled() == before.headers.unframed_headers().push(
                content_length_header(length),
            ),
            self.headers.unframed_headers() == before.headers.unframed_headers(),
            self.headers.enabled().len() <= before.headers.enabled().len() + 1,
    {
        lemma_content_length_key();
        lemma_decimal_len(length as nat);
        crate::request::header_list::lemma_content_length_is_enabled();
        let entries = self.headers.placed_entries();
        let earlier = before.headers.placed_entries();
        let header = entries.last().1;
        assert(header.view().hash == header.hash);
        assert(header.view().key == header.key.bytes());
        assert(header.view().value == header.value.bytes());
        assert(header.check() is Ok);
        lemma_unframed_entries(earlier, entries.drop_last());
        assert forall|k: int| 0 <= k < entries.len() implies (
        #[trigger] entries[k]).1.check() is Ok by {
            if k < earlier.len() {
                crate::request::headers::lemma_checked_entry(earlier, 0, 0, k);
            }
        }
        crate::request::headers::lemma_checked_entries(entries, 0);
        assert(entries.take(0) =~= Seq::empty());
    }

    /// Framing input headers again with the same length lists the same headers.
    pub proof fn law_framing_again_lists_the_same(
        self,
        framed: NativeHeadersIn,
        before: NativeHeadersIn,
        length: usize,
    )
        requires
            framed.framed(before, length),
            self.framed(framed, length),
            before.headers.check() is Ok,
            before.headers.enabled().len() + 1 < usize::MAX,
        ensures
            self.headers.check() is Ok,
            self.headers.enabled() == framed.headers.enabled(),
            self.content_length_n == framed.content_length_n,
            self.chunked == framed.chunked,
            self.transfer_encoding@ == framed.transfer_encoding@,
    {
        framed.law_framed_headers_are_listed(before, length);
        self.law_framed_headers_are_listed(framed, length);
    }

    /// Slots that matched the list match it once it was framed.
    pub proof fn law_framing_keeps_the_slots(self, before: NativeHeadersIn, length: usize)
        requires
            self.framed(before, length),
            before.slots_match(),
        ensures
            self.slots_match(),
    {
        lemma_content_length_key();
        crate::request::header_list::lemma_content_length_is_enabled();
        let entries = self.headers.placed_entries();
        let earlier = before.headers.placed_entries();
        let header = entries.last().1;
        assert(header.view().hash == header.hash);
        assert(header.view().key == header.key.bytes());
        assert forall|slot: HeaderSlot| #[trigger]
            self.slots.chain(slot) == (if slot.input() {
                self.headers.named(slot)
            } else {
                Seq::empty()
            }) by {
            assert(before.slots.chain(slot) == (if slot.input() {
                before.headers.named(slot)
            } else {
                Seq::empty()
            }));
            lemma_unframed_names(earlier, entries.drop_last(), slot);
            if slot.names(content_length_key()) {
                crate::request::header_slots::law_slot_names_are_distinct(
                    content_length_key(),
                    slot,
                    HeaderSlot::ContentLength,
                );
            }
            if slot == HeaderSlot::ContentLength {
                assert(Seq::<EntryAt>::empty().push(entries.last().0) =~= seq![entries.last().0]);
            }
        }
    }
}

/// What the Content-Length header of a body of `length` bytes says.
pub open spec fn content_length_header(length: usize) -> crate::request::headers::HeaderView {
    crate::request::header_list::built_header(content_length_key(), decimal(length as nat))
}

impl NativeList {
    /// What the enabled ones of `entries` say that do not frame a body.
    pub open spec fn unframed_of(entries: Seq<(EntryAt, NativeHeader)>) -> Seq<
        crate::request::headers::HeaderView,
    >
        decreases entries.len(),
    {
        if entries.len() == 0 {
            Seq::empty()
        } else {
            let earlier = Self::unframed_of(entries.drop_last());
            let entry = entries.last().1;
            if entry.hash == 0 || crate::request::header_list::is_framing(entry.key.bytes()) {
                earlier
            } else {
                earlier.push(entry.view())
            }
        }
    }

    /// What the enabled entries of the list say that do not frame a body.
    pub open spec fn unframed_headers(self) -> Seq<crate::request::headers::HeaderView> {
        Self::unframed_of(self.placed_entries())
    }
}

/// Disabling the framing entries leaves the enabled entries that do not frame a body.
proof fn lemma_unframed_entries(
    before: Seq<(EntryAt, NativeHeader)>,
    after: Seq<(EntryAt, NativeHeader)>,
)
    requires
        before.len() == after.len(),
        forall|k: int|
            0 <= k < before.len() ==> #[trigger] after[k] == (
                before[k].0,
                crate::request::header_list::unframed(before[k].1),
            ),
    ensures
        NativeList::enabled_of(after) == NativeList::unframed_of(before),
        NativeList::unframed_of(after) == NativeList::unframed_of(before),
        NativeList::unframed_of(before).len() <= NativeList::enabled_of(before).len(),
    decreases before.len(),
{
    if before.len() > 0 {
        assert(after[after.len() - 1] == (
            before.last().0,
            crate::request::header_list::unframed(before.last().1),
        ));
        assert forall|k: int| 0 <= k < before.drop_last().len() implies #[trigger]
            after.drop_last()[k] == (
            before.drop_last()[k].0,
            crate::request::header_list::unframed(before.drop_last()[k].1),
        ) by {
            assert(after[k] == (
                before[k].0,
                crate::request::header_list::unframed(before[k].1),
            ));
        }
        lemma_unframed_entries(before.drop_last(), after.drop_last());
    }
}

/// Disabling the framing entries takes the Content-Length entries out of their slot, and no others.
proof fn lemma_unframed_names(
    before: Seq<(EntryAt, NativeHeader)>,
    after: Seq<(EntryAt, NativeHeader)>,
    slot: HeaderSlot,
)
    requires
        before.len() == after.len(),
        forall|k: int|
            0 <= k < before.len() ==> #[trigger] after[k] == (
                before[k].0,
                crate::request::header_list::unframed(before[k].1),
            ),
    ensures
        NativeList::named_of(after, slot) == (if slot == HeaderSlot::ContentLength {
            Seq::<EntryAt>::empty()
        } else {
            NativeList::named_of(before, slot)
        }),
    decreases before.len(),
{
    if before.len() > 0 {
        let entry = before.last().1;
        assert(after[after.len() - 1] == (
            before.last().0,
            crate::request::header_list::unframed(entry),
        ));
        assert forall|k: int| 0 <= k < before.drop_last().len() implies #[trigger]
            after.drop_last()[k] == (
            before.drop_last()[k].0,
            crate::request::header_list::unframed(before.drop_last()[k].1),
        ) by {
            assert(after[k] == (
                before[k].0,
                crate::request::header_list::unframed(before[k].1),
            ));
        }
        lemma_unframed_names(before.drop_last(), after.drop_last(), slot);
        let key = entry.key.bytes();
        if slot.names(key) && crate::request::header_list::is_framing(key) {
            lemma_framing_slot(key, slot);
        }
    }
}

/// The only slot of a framing key is the one of Content-Length.
proof fn lemma_framing_slot(key: Seq<u8>, slot: HeaderSlot)
    requires
        crate::request::header_list::is_framing(key),
        slot.names(key),
    ensures
        slot == HeaderSlot::ContentLength,
{
    if HeaderSlot::ContentLength.names(key) {
        crate::request::header_slots::law_slot_names_are_distinct(
            key,
            slot,
            HeaderSlot::ContentLength,
        );
    } else {
        reveal_strlit("Transfer-Encoding");
        vstd::utf8::is_ascii_chars_encode_utf8("Transfer-Encoding"@);
        let name = vstd::utf8::encode_utf8("Transfer-Encoding"@);
        assert(name.len() == 17);
        assert(name[0] == 84);
        crate::request::header_slots::lemma_no_slot_like_transfer_encoding(slot);
        let lowercase = crate::bytes::lowercase(key);
        assert(lowercase == crate::bytes::lowercase(name));
        assert(lowercase == crate::bytes::lowercase(slot.title()));
        assert(lowercase.len() == 17);
        assert(lowercase[0] == crate::bytes::lower(name[0]));
        assert(lowercase[0] == crate::bytes::lower(slot.title()[0]));
    }
}

/// Publishes a body and its framing, or leaves the input headers as they are.
pub fn publish_request_body_framing(
    request: &mut NativeRequest,
    pool: &mut NativePool,
    candidate: RequestBodyFramingCandidate,
    body: Pointer<NativeBody>,
) -> (result: Result<(), RequestBodyBuildError>)
    requires
        old(request).headers_in.headers.appendable(),
        old(request).headers_in.slots.wf(),
        old(request).headers_in.headers.check() is Ok,
        candidate.frames(old(request).headers_in, candidate.content_length_n as usize),
    ensures
        *final(pool) == (NativePool { blocks: final(pool).blocks, ..*old(pool) }),
        NativePool::spent_from(final(pool).blocks@, old(pool).blocks@),
        match result {
            Err(error) => {
                &&& error == RequestBodyBuildError::HeaderBuild(HeaderBuildError::Allocation)
                &&& old(pool).blocks@.len() < old(request).headers_in.headers.append_blocks()
                &&& *final(request) == *old(request)
            },
            Ok(_) => {
                &&& old(pool).blocks@.len() >= old(request).headers_in.headers.append_blocks()
                &&& final(pool).blocks@ == NativePool::spend(
                    old(pool).blocks@,
                    old(request).headers_in.headers.append_blocks(),
                )
                &&& final(request).headers_in.framed(
                    old(request).headers_in,
                    candidate.content_length_n as usize,
                )
                &&& *final(request) == (NativeRequest {
                    headers_in: final(request).headers_in,
                    request_body: body,
                    ..*old(request)
                })
            },
        },
{
    let ghost before = request.headers_in;
    let ghost earlier = before.headers.placed_entries();
    repair_header_list_last(&mut request.headers_in.headers);
    let places = request.headers_in.headers.places();
    let ghost header = candidate.content_length;
    let at = match append_header(
        &mut request.headers_in.headers,
        pool,
        candidate.content_length,
    ) {
        Ok(at) => at,
        Err(error) => return Err(RequestBodyBuildError::from(error)),
    };
    let ghost extended = request.headers_in.headers;
    proof {
        assert forall|k: int| 0 <= k < places@.len() implies {
            &&& #[trigger] places@[k] == extended.placed_entries()[k].0
            &&& extended.placed_entries()[k].1.check() is Ok
        } by {
            crate::request::headers::lemma_checked_entry(earlier, 0, 0, k);
        }
    }
    disable_framing_before(&mut request.headers_in.headers, places);
    proof {
        let entries = request.headers_in.headers.placed_entries();
        assert(entries[entries.len() - 1] == (at, header));
        assert forall|k: int| 0 <= k < earlier.len() implies #[trigger] entries[k] == (
            earlier[k].0,
            crate::request::header_list::unframed(earlier[k].1),
        ) by {
            assert(extended.placed_entries()[k] == earlier[k]);
        }
    }
    let mut slot: Vec<EntryAt> = Vec::new();
    slot.push(at);
    request.headers_in.slots.set(HeaderSlot::ContentLength, slot);
    request.headers_in.transfer_encoding = Vec::new();
    request.headers_in.content_length_n = candidate.content_length_n;
    request.headers_in.count = candidate.count;
    request.headers_in.chunked = false;
    request.request_body = body;
    assert(request.headers_in.slots.chain(HeaderSlot::ContentLength) =~= seq![at]);
    Ok(())
}

/// Request-pool builder for atomically replacing an HTTP request body and its framing.
#[derive(Debug)]
pub struct RequestBodyBuilder {
    pub request: usize,
    pub body: RequestBodyCandidate,
}

impl NativeState {
    /// Whether the input headers of a request can be framed or refused: what their list promises
    /// can be read, and a valid list can be appended to.
    pub open spec fn framable(self, raw: usize) -> bool {
        &&& self.requests@.contains_key(raw)
        &&& self.requests@[raw].headers_in.framable()
    }

    /// What publishing a body of `length` bytes, whose structure takes `body_blocks` blocks, makes
    /// of `before`. A refusal leaves every request as it was.
    pub open spec fn framing_published(
        self,
        before: NativeState,
        raw: usize,
        pool: usize,
        length: usize,
        body_blocks: nat,
        result: Result<(), RequestBodyBuildError>,
    ) -> bool {
        let headers = before.requests@[raw].headers_in;
        let blocks = before.pools@[pool].blocks@;
        let needed = 3 + body_blocks + headers.headers.append_blocks();
        &&& self == (NativeState { requests: self.requests, pools: self.pools, ..before })
        &&& self.drew_from(before, pool)
        &&& match result {
            Err(error) => {
                &&& self.requests@ == before.requests@
                &&& match headers.framing_fault(length) {
                    Some(fault) => error == fault,
                    None => {
                        &&& blocks.len() < needed
                        &&& error == (if 3 <= blocks.len() < 3 + body_blocks {
                            RequestBodyBuildError::Allocation
                        } else {
                            RequestBodyBuildError::HeaderBuild(HeaderBuildError::Allocation)
                        })
                    },
                }
            },
            Ok(_) => {
                let after = self.requests@[raw];
                &&& headers.framing_fault(length) is None
                &&& blocks.len() >= needed
                &&& self.drew(before, pool, needed)
                &&& self.requests@ == before.requests@.insert(raw, after)
                &&& after == (NativeRequest {
                    headers_in: after.headers_in,
                    request_body: after.request_body,
                    ..before.requests@[raw]
                })
                &&& after.headers_in.framed(headers, length)
            },
        }
    }
}

impl RequestBodyBuilder {
    /// Whether the candidate is well-formed.
    pub open spec fn wf(self) -> bool {
        self.body.wf()
    }

    /// A candidate without bytes for a request.
    pub fn new(request: &RequestRefMut, native: &NativeState) -> (result: Result<
        Self,
        RequestBodyBuildError,
    >)
        requires
            native.requests@.contains_key(request.raw),
        ensures
            match native.pool_of(request.raw) {
                Err(error) => result matches Err(e) && e == RequestBodyBuildError::Request(error),
                Ok(pool) => result matches Ok(builder) && builder.wf() && builder.request
                    == request.raw && builder.body.pool == pool
                    && builder.body.chain.buffers@.len() == 0 && builder.body.length == 0,
            },
    {
        match request.pool(native) {
            Ok(pool) => Ok(
                RequestBodyBuilder { request: request.raw, body: RequestBodyCandidate::new(pool) },
            ),
            Err(error) => Err(RequestBodyBuildError::from(error)),
        }
    }

    /// Copies memory bytes into the request-pool body candidate.
    pub fn append_copy(&mut self, native: &mut NativeState, bytes: &[u8]) -> (result: Result<
        (),
        RequestBodyBuildError,
    >)
        requires
            old(self).wf(),
            old(native).pools@.contains_key(old(self).body.pool),
        ensures
            *final(native) == (NativeState { pools: final(native).pools, ..*old(native) }),
            final(self).wf(),
            final(self).request == old(self).request,
            final(self).body.pool == old(self).body.pool,
            final(native).drew_from(*old(native), old(self).body.pool),
            ({
                let before = old(self).body;
                let blocks = old(native).pools@[before.pool].blocks@;
                if bytes@.len() == 0 {
                    &&& result == Ok::<(), RequestBodyBuildError>(())
                    &&& *final(self) == *old(self)
                    &&& final(native).pools@ == old(native).pools@
                } else {
                    match result {
                        Err(error) => {
                            &&& *final(self) == *old(self)
                            &&& if blocks.len() < 2 {
                                error == RequestBodyBuildError::Buffer(BufferError::Allocation)
                            } else if before.length + bytes@.len() > usize::MAX {
                                error == RequestBodyBuildError::LengthOverflow
                            } else {
                                &&& error == RequestBodyBuildError::Chain(ChainError::Allocation)
                                &&& blocks.len() == 2
                            }
                        },
                        Ok(_) => {
                            &&& blocks.len() >= 3
                            &&& before.length + bytes@.len() <= usize::MAX
                            &&& final(native).drew(*old(native), before.pool, 3)
                            &&& final(self).body.length == before.length + bytes@.len()
                            &&& final(self).body.chain.buffers@.len() == before.chain.buffers@.len()
                                + 1
                            &&& final(self).body.chain.buffers@.drop_last() == before.chain.buffers@
                            &&& final(self).body.chain.buffers@.last().holds() == Ok::<
                                crate::buffer::BufferKind,
                                BufferError,
                            >(crate::buffer::BufferKind::Memory(bytes@))
                            &&& final(self).body.chain.buffers@.last().file is None
                            &&& final(self).body.chain.buffers@.last().flags == (BufferFlags {
                                flush: false,
                                sync: false,
                                last_buf: false,
                                last_in_chain: false,
                            })
                        },
                    }
                }
            }),
    {
        self.body.append_copy(native, bytes)
    }

    /// Appends one request-pool-owned buffer to the body candidate.
    pub fn append(&mut self, native: &mut NativeState, buffer: PoolBuffer) -> (result: Result<
        (),
        RequestBodyBuildError,
    >)
        requires
            old(self).wf(),
            old(native).pools@.contains_key(old(self).body.pool),
        ensures
            *final(native) == (NativeState { pools: final(native).pools, ..*old(native) }),
            final(self).wf(),
            final(self).request == old(self).request,
            final(self).body.pool == old(self).body.pool,
            final(native).drew_from(*old(native), old(self).body.pool),
            ({
                let before = old(self).body;
                let blocks = old(native).pools@[before.pool].blocks@;
                match buffer.buffer.measured() {
                    Err(error) => {
                        &&& result == Err::<(), RequestBodyBuildError>(
                            RequestBodyBuildError::Buffer(error),
                        )
                        &&& *final(self) == *old(self)
                        &&& final(native).pools@ == old(native).pools@
                    },
                    Ok(length) => match result {
                        Err(error) => {
                            &&& *final(self) == *old(self)
                            &&& if before.length + length > usize::MAX {
                                error == RequestBodyBuildError::LengthOverflow
                            } else if buffer.pool != before.pool {
                                error == RequestBodyBuildError::Chain(
                                    ChainError::Buffer(BufferError::ForeignPool),
                                )
                            } else {
                                &&& error == RequestBodyBuildError::Chain(ChainError::Allocation)
                                &&& blocks.len() == 0
                            }
                        },
                        Ok(_) => {
                            &&& before.length + length <= usize::MAX
                            &&& buffer.pool == before.pool
                            &&& blocks.len() > 0
                            &&& final(native).drew(*old(native), before.pool, 1)
                            &&& final(self).body.grown(before, buffer.buffer)
                        },
                    },
                }
            }),
    {
        self.body.append(native, buffer)
    }

    /// Appends a zero-size control buffer to the body candidate.
    pub fn append_control(&mut self, native: &mut NativeState, flags: BufferFlags) -> (result:
        Result<(), RequestBodyBuildError>)
        requires
            old(self).wf(),
            old(native).pools@.contains_key(old(self).body.pool),
        ensures
            *final(native) == (NativeState { pools: final(native).pools, ..*old(native) }),
            final(self).wf(),
            final(self).request == old(self).request,
            final(self).body.pool == old(self).body.pool,
            final(native).drew_from(*old(native), old(self).body.pool),
            ({
                let before = old(self).body;
                let blocks = old(native).pools@[before.pool].blocks@;
                match result {
                    Err(error) => {
                        &&& *final(self) == *old(self)
                        &&& if blocks.len() == 0 {
                            error == RequestBodyBuildError::Buffer(BufferError::Allocation)
                        } else {
                            &&& error == RequestBodyBuildError::Chain(ChainError::Allocation)
                            &&& blocks.len() == 1
                        }
                    },
                    Ok(_) => {
                        &&& blocks.len() >= 2
                        &&& final(native).drew(*old(native), before.pool, 2)
                        &&& final(self).body.grown(
                            before,
                            (NativeBuffer { memory: None, file: None, flags }),
                        )
                        &&& final(self).body.length == before.length
                    },
                }
            }),
    {
        self.body.append_control(native, flags)
    }

    /// Publishes the complete non-null request-body candidate and matching framing headers.
    pub fn commit(self, native: &mut NativeState) -> (result: Result<(), RequestBodyBuildError>)
        requires
            self.wf(),
            old(native).framable(self.request),
            old(native).pools@.contains_key(self.body.pool),
        ensures
            final(native).framing_published(
                *old(native),
                self.request,
                self.body.pool,
                self.body.length,
                1,
                result,
            ),
            result is Ok ==> {
                &&& final(native).requests@[self.request].request_body matches Pointer::To(body)
                &&& self.body.is_body(body)
                &&& body.measured() == Ok::<RequestBodySize, RequestBodyError>(
                    (RequestBodySize { bytes: self.body.length, saturated: false }),
                )
            },
    {
        let raw = self.request;
        let address = self.body.pool;
        let length = self.body.length;
        let mut pool = native.take_pool(address);
        let mut request = native.take_request(raw);
        let ghost candidate = self.body;
        let result = publish_body(&mut request, &mut pool, self.body);
        let ghost published = request.request_body;
        native.put_request(raw, request);
        native.put_pool(address, pool);
        proof {
            assert(native.pools@ =~= old(native).pools@.insert(address, pool));
            assert(native.requests@ =~= old(native).requests@.insert(raw, request));
            if result is Err {
                assert(native.requests@ =~= old(native).requests@);
            } else {
                candidate.law_body_has_the_candidate_length(published->To_0);
            }
        }
        result
    }
}

/// Prepares the framing and the body of a candidate, and publishes both.
fn publish_body(
    request: &mut NativeRequest,
    pool: &mut NativePool,
    body: RequestBodyCandidate,
) -> (result: Result<(), RequestBodyBuildError>)
    requires
        old(request).headers_in.framable(),
    ensures
        *final(pool) == (NativePool { blocks: final(pool).blocks, ..*old(pool) }),
        NativePool::spent_from(final(pool).blocks@, old(pool).blocks@),
        ({
            let headers = old(request).headers_in;
            let needed = 4 + headers.headers.append_blocks();
            match result {
                Err(error) => {
                    &&& *final(request) == *old(request)
                    &&& match headers.framing_fault(body.length) {
                        Some(fault) => error == fault,
                        None => {
                            &&& old(pool).blocks@.len() < needed
                            &&& error == (if old(pool).blocks@.len() == 3 {
                                RequestBodyBuildError::Allocation
                            } else {
                                RequestBodyBuildError::HeaderBuild(HeaderBuildError::Allocation)
                            })
                        },
                    }
                },
                Ok(_) => {
                    &&& headers.framing_fault(body.length) is None
                    &&& old(pool).blocks@.len() >= needed
                    &&& final(pool).blocks@ == NativePool::spend(old(pool).blocks@, needed)
                    &&& final(request).headers_in.framed(headers, body.length)
                    &&& *final(request) == (NativeRequest {
                        headers_in: final(request).headers_in,
                        request_body: final(request).request_body,
                        ..*old(request)
                    })
                    &&& final(request).request_body matches Pointer::To(b) && body.is_body(b)
                },
            }
        }),
{
    let ghost blocks = pool.blocks@;
    let length = body.length;
    proof {
        NativePool::lemma_spend(blocks, 0, 0);
        NativePool::lemma_spend(blocks, 3, 1);
        NativePool::lemma_spend(blocks, 4, request.headers_in.headers.append_blocks());
    }
    let framing = match request_body_framing_candidate(&request.headers_in, pool, length) {
        Ok(framing) => framing,
        Err(error) => return Err(error),
    };
    let ghost framed = pool.blocks@;
    let raw_body = match body.into_raw(pool) {
        Ok(raw_body) => raw_body,
        Err(error) => {
            proof {
                crate::request::header_list::lemma_spent_twice(pool.blocks@, framed, blocks);
            }
            return Err(error);
        },
    };
    let ghost left = pool.blocks@;
    let result = publish_request_body_framing(request, pool, framing, Pointer::To(raw_body));
    proof {
        crate::request::header_list::lemma_spent_twice(pool.blocks@, left, blocks);
    }
    result
}

impl RequestRef {
    /// Returns a checked callback-scoped view over the current request body, when nginx has one.
    pub fn request_body<'a>(&self, native: &'a NativeState) -> (result: Result<
        Option<RequestBodyRef<'a>>,
        RequestBodyError,
    >)
        requires
            native.requests@.contains_key(self.raw),
        ensures
            match native.requests@[self.raw].request_body {
                Pointer::Null => result matches Ok(None),
                Pointer::Misaligned => result matches Err(RequestBodyError::MisalignedBody),
                Pointer::To(body) => result matches Ok(Some(view)) && *view.raw == body,
            },
    {
        RequestBodyRef::from_raw(&native.request(self.raw).request_body)
    }
}

impl RequestRefMut {
    /// Returns a checked callback-scoped view over the current request body, when nginx has one.
    pub fn request_body<'a>(&self, native: &'a NativeState) -> (result: Result<
        Option<RequestBodyRef<'a>>,
        RequestBodyError,
    >)
        requires
            native.requests@.contains_key(self.raw),
        ensures
            match native.requests@[self.raw].request_body {
                Pointer::Null => result matches Ok(None),
                Pointer::Misaligned => result matches Err(RequestBodyError::MisalignedBody),
                Pointer::To(body) => result matches Ok(Some(view)) && *view.raw == body,
            },
    {
        self.view().request_body(native)
    }

    /// Starts constructing a complete request-pool body and framing-header replacement.
    pub fn request_body_builder(&mut self, native: &NativeState) -> (result: Result<
        RequestBodyBuilder,
        RequestBodyBuildError,
    >)
        requires
            native.requests@.contains_key(old(self).raw),
        ensures
            *final(self) == *old(self),
            match native.pool_of(old(self).raw) {
                Err(error) => result matches Err(e) && e == RequestBodyBuildError::Request(error),
                Ok(pool) => result matches Ok(builder) && builder.wf() && builder.request == old(
                    self).raw && builder.body.pool == pool && builder.body.chain.buffers@.len() == 0
                    && builder.body.length == 0,
            },
    {
        RequestBodyBuilder::new(self, native)
    }

    /// Clears the current body pointer and publishes a zero Content-Length without transfer coding.
    pub fn clear_request_body(&mut self, native: &mut NativeState) -> (result: Result<
        (),
        RequestBodyBuildError,
    >)
        requires
            old(native).framable(old(self).raw),
            old(native).pool_resolves(old(self).raw),
        ensures
            *final(self) == *old(self),
            match old(native).pool_of(old(self).raw) {
                Err(error) => {
                    &&& result == Err::<(), RequestBodyBuildError>(
                        RequestBodyBuildError::Request(error),
                    )
                    &&& final(native).unchanged(*old(native))
                },
                Ok(pool) => {
                    &&& final(native).framing_published(
                        *old(native),
                        old(self).raw,
                        pool,
                        0,
                        0,
                        result,
                    )
                    &&& result is Ok ==> final(native).requests@[old(self).raw].request_body is Null
                },
            },
    {
        let address = match self.pool(native) {
            Ok(address) => address,
            Err(error) => return Err(RequestBodyBuildError::from(error)),
        };
        let mut pool = native.take_pool(address);
        let mut request = native.take_request(self.raw);
        let ghost blocks = pool.blocks@;
        proof {
            NativePool::lemma_spend(blocks, 0, 0);
            NativePool::lemma_spend(blocks, 3, request.headers_in.headers.append_blocks());
        }
        let framing = request_body_framing_candidate(&request.headers_in, &mut pool, 0);
        let ghost left = pool.blocks@;
        let result = match framing {
            Ok(framing) => publish_request_body_framing(
                &mut request,
                &mut pool,
                framing,
                Pointer::Null,
            ),
            Err(error) => {
                proof {
                    NativePool::lemma_spend(left, 0, 0);
                }
                Err(error)
            },
        };
        native.put_request(self.raw, request);
        native.put_pool(address, pool);
        proof {
            crate::request::header_list::lemma_spent_twice(pool.blocks@, left, blocks);
            assert(native.pools@ =~= old(native).pools@.insert(address, pool));
            assert(native.requests@ =~= old(native).requests@.insert(self.raw, request));
            if result is Err {
                assert(native.requests@ =~= old(native).requests@);
            }
        }
        result
    }
}

} // verus!
