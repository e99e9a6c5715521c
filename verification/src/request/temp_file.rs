//! Temporary files that hold the body bytes of a request.

use vstd::prelude::*;

use crate::buffer::{
    BufferError, BufferFlags, BufferView, ChainError, FileRange, NativeBuffer, PoolBuffer, PoolChain,
};
use crate::native::{
    is_aligned, FileCleanup, HttpConfigError, NativePool, NativeState, Pointer,
};
use crate::request::body::ChainRef;
use crate::request::context::{
    get_or_create_request_context_registry, RequestContextError, RequestContextRegistry,
};
use crate::request::view::{RequestError, RequestRefMut};

verus! {

/// Descriptor of a file that is not open.
pub const NGX_INVALID_FILE: i32 = -1;

/// Log level of warnings.
pub const NGX_LOG_WARN: usize = 5;

/// Failure while copying a checked HTTP chain into a request-pool temporary file.
#[derive(Clone, Copy, Debug, PartialEq, Eq, Structural)]
pub enum RequestTempFileError {
    /// The request could not provide a usable pool or logger.
    Request(RequestError),
    /// The HTTP core module configuration could not be resolved.
    Configuration(HttpConfigError),
    /// The request owner registry could not be created.
    Owner(RequestContextError),
    /// Nginx did not install a core location configuration for this request.
    MissingCoreLocationConfiguration,
    /// The core location configuration has no client-body temporary path.
    MissingTempPath,
    /// The configured temporary path pointer is misaligned.
    MisalignedTempPath,
    /// The request connection has no logger for the temporary file.
    MissingLog,
    /// An input or output chain is malformed or could not allocate a link.
    Chain(ChainError),
    /// A buffer is malformed or could not allocate request-pool storage.
    Buffer(BufferError),
    /// Nginx could not allocate the request-pool temporary-file state or output descriptor.
    Allocation,
    /// The temporary-file offset is negative.
    NegativeOffset,
    /// The input length cannot be represented by nginx's file offset type.
    LengthOverflow,
    /// Appending the input length would overflow the temporary-file offset.
    OffsetOverflow,
    /// Nginx failed to open or write the temporary file.
    Write,
    /// Nginx did not write the complete requested range.
    ShortWrite {
        /// Number of bytes requested from nginx.
        expected: usize,
        /// Number of bytes reported as written by nginx.
        written: usize,
    },
    /// The handle belongs to a different request owner or generation.
    ForeignRequest,
    /// The live temporary file has no matching request-pool cleanup.
    MissingCleanup,
}

impl From<RequestError> for RequestTempFileError {
    fn from(error: RequestError) -> (result: Self) {
        RequestTempFileError::Request(error)
    }
}

impl vstd::std_specs::convert::FromSpecImpl<RequestError> for RequestTempFileError {
    open spec fn obeys_from_spec() -> bool {
        true
    }

    open spec fn from_spec(error: RequestError) -> Self {
        RequestTempFileError::Request(error)
    }
}

impl From<HttpConfigError> for RequestTempFileError {
    fn from(error: HttpConfigError) -> (result: Self) {
        RequestTempFileError::Configuration(error)
    }
}

impl vstd::std_specs::convert::FromSpecImpl<HttpConfigError> for RequestTempFileError {
    open spec fn obeys_from_spec() -> bool {
        true
    }

    open spec fn from_spec(error: HttpConfigError) -> Self {
        RequestTempFileError::Configuration(error)
    }
}

impl From<RequestContextError> for RequestTempFileError {
    fn from(error: RequestContextError) -> (result: Self) {
        RequestTempFileError::Owner(error)
    }
}

impl vstd::std_specs::convert::FromSpecImpl<RequestContextError> for RequestTempFileError {
    open spec fn obeys_from_spec() -> bool {
        true
    }

    open spec fn from_spec(error: RequestContextError) -> Self {
        RequestTempFileError::Owner(error)
    }
}

impl From<ChainError> for RequestTempFileError {
    fn from(error: ChainError) -> (result: Self) {
        RequestTempFileError::Chain(error)
    }
}

impl vstd::std_specs::convert::FromSpecImpl<ChainError> for RequestTempFileError {
    open spec fn obeys_from_spec() -> bool {
        true
    }

    open spec fn from_spec(error: ChainError) -> Self {
        RequestTempFileError::Chain(error)
    }
}

impl From<BufferError> for RequestTempFileError {
    fn from(error: BufferError) -> (result: Self) {
        RequestTempFileError::Buffer(error)
    }
}

impl vstd::std_specs::convert::FromSpecImpl<BufferError> for RequestTempFileError {
    open spec fn obeys_from_spec() -> bool {
        true
    }

    open spec fn from_spec(error: BufferError) -> Self {
        RequestTempFileError::Buffer(error)
    }
}

/// The range that `length` bytes behind `offset` take, or why they take none.
pub open spec fn range_behind(offset: i64, length: usize) -> Result<(i64, i64), RequestTempFileError> {
    if offset < 0 {
        Err(RequestTempFileError::NegativeOffset)
    } else if length > i64::MAX {
        Err(RequestTempFileError::LengthOverflow)
    } else if offset + length > i64::MAX {
        Err(RequestTempFileError::OffsetOverflow)
    } else {
        Ok((offset, (offset + length) as i64))
    }
}

/// The range that `length` bytes behind `offset` take.
pub fn temp_file_range(offset: i64, length: usize) -> (result: Result<
    (i64, i64),
    RequestTempFileError,
>)
    ensures
        result == range_behind(offset, length),
{
    if offset < 0 {
        return Err(RequestTempFileError::NegativeOffset);
    }
    if length as u64 > i64::MAX as u64 {
        return Err(RequestTempFileError::LengthOverflow);
    }
    match offset.checked_add(length as i64) {
        Some(end) => Ok((offset, end)),
        None => Err(RequestTempFileError::OffsetOverflow),
    }
}

/// Two ranges that follow each other are the range of both lengths.
pub proof fn law_ranges_follow_each_other(offset: i64, first: usize, second: usize)
    requires
        range_behind(offset, first) is Ok,
        range_behind(range_behind(offset, first)->Ok_0.1, second) is Ok,
        first + second <= usize::MAX,
    ensures
        range_behind(offset, (first + second) as usize) == Ok::<(i64, i64), RequestTempFileError>(
            (offset, range_behind(range_behind(offset, first)->Ok_0.1, second)->Ok_0.1),
        ),
{
}

/// Checks what nginx reported of a write of `expected` bytes.
pub fn check_temp_file_write(expected: usize, written: isize) -> (result: Result<
    (),
    RequestTempFileError,
>)
    ensures
        result == (if written < 0 {
            Err::<(), RequestTempFileError>(RequestTempFileError::Write)
        } else if written != expected {
            Err(
                RequestTempFileError::ShortWrite { expected, written: written as usize },
            )
        } else {
            Ok(())
        }),
{
    if written < 0 {
        return Err(RequestTempFileError::Write);
    }
    let written = written as usize;
    if written != expected {
        return Err(RequestTempFileError::ShortWrite { expected, written });
    }
    Ok(())
}

/// A temporary file that was given up.
#[derive(Clone, Copy, Debug, PartialEq, Eq, Structural)]
pub struct ReleasedTempFile {
    /// Descriptor that is to be closed.
    pub fd: i32,
    /// The file as it stays in the pool.
    pub temp_file: NativeTempFile,
}

/// A temporary file as nginx holds it.
#[derive(Clone, Copy, Debug, PartialEq, Eq, Structural)]
pub struct NativeTempFile {
    /// The file structure, by its address.
    pub file: usize,
    /// Descriptor, or [`NGX_INVALID_FILE`].
    pub fd: i32,
    /// Where the next bytes go.
    pub offset: i64,
    /// Directory, by its address.
    pub path: usize,
    /// Logger, by its address.
    pub log: usize,
    /// Pool, by its address.
    pub pool: usize,
    /// Permissions.
    pub access: u32,
    /// Level at which nginx logs that the file is used.
    pub log_level: usize,
    /// Whether pool cleanup removes the file.
    pub clean: bool,
}

impl NativeTempFile {
    /// What nginx logs when the file is used.
    pub fn warning(&self) -> (result: &'static str)
        ensures
            result@ == "an HTTP body is buffered to a temporary file"@,
    {
        "an HTTP body is buffered to a temporary file"
    }
}

/// Where temporary files of a request go.
#[derive(Clone, Copy, Debug, PartialEq, Eq, Structural)]
pub struct RequestTempFileState {
    /// Directory, by its address.
    pub path: usize,
    /// Logger, by its address.
    pub log: usize,
}

/// Checked handle for request-pool temporary-file state retained across HTTP callbacks.
///
/// Every operation verifies the current request owner and generation before it uses the state.
#[derive(Debug)]
pub struct RequestTempFileHandle {
    pub request: usize,
    /// The pool, by its address.
    pub pool: usize,
    /// Identity of the request's context registry.
    pub owner: usize,
    /// Generation of that registry.
    pub generation: u64,
    pub state: RequestTempFileState,
    pub temp_file: Option<NativeTempFile>,
}

/// Callback-scoped owner for a lazily created nginx temporary file.
///
/// The temporary file uses the HTTP core `client_body_temp_path`, is removed by nginx pool
/// cleanup, and creates its file descriptor only when a nonempty memory buffer is appended.
/// File-backed input is copied into the returned request-pool chain without a second disk write.
#[derive(Debug)]
pub struct RequestTempFile {
    pub state: RequestTempFileHandle,
    /// The pool, by its address.
    pub pool: usize,
}

impl NativeState {
    /// Where temporary files of a request go, or why there is no such place.
    pub open spec fn temp_file_place(self, raw: usize) -> Result<
        RequestTempFileState,
        RequestTempFileError,
    > {
        let request = self.requests@[raw];
        match self.pool_of(raw) {
            Err(error) => Err(RequestTempFileError::Request(error)),
            Ok(_) => match self.conf_in(request.loc_conf, self.core_module) {
                Err(error) => Err(RequestTempFileError::Configuration(error)),
                Ok(None) => Err(RequestTempFileError::MissingCoreLocationConfiguration),
                Ok(Some(_)) => {
                    let path = request.core_location->Some_0.client_body_temp_path;
                    if path == 0 {
                        Err(RequestTempFileError::MissingTempPath)
                    } else if !NativeState::aligned(path) {
                        Err(RequestTempFileError::MisalignedTempPath)
                    } else {
                        match self.log_of(raw) {
                            Err(error) => Err(RequestTempFileError::Request(error)),
                            Ok(None) => Err(RequestTempFileError::MissingLog),
                            Ok(Some(log)) => match self.main_of(raw) {
                                Err(error) => Err(RequestTempFileError::Request(error)),
                                Ok(_) => Ok(RequestTempFileState { path, log }),
                            },
                        }
                    }
                },
            },
        }
    }

    /// What creating temporary-file state for a request makes of `before`.
    pub open spec fn temp_file_created(
        self,
        before: NativeState,
        raw: usize,
        result: Result<RequestTempFileHandle, RequestTempFileError>,
    ) -> bool {
        match before.temp_file_place(raw) {
            Err(error) => {
                &&& result == Err::<RequestTempFileHandle, RequestTempFileError>(error)
                &&& self.unchanged(before)
            },
            Ok(place) => {
                let pool = before.requests@[raw].pool;
                let main = before.main_of(raw)->Ok_0;
                match before.creation(pool) {
                    Err(error) => {
                        &&& result == Err::<RequestTempFileHandle, RequestTempFileError>(
                            RequestTempFileError::Owner(error),
                        )
                        &&& self.registry_created(before, pool, main, Err(error))
                    },
                    Ok(created) => {
                        &&& self.registry_created(before, pool, main, Ok(created))
                        &&& self.pools@[pool].registry matches Some(registry) && result == Ok::<
                            RequestTempFileHandle,
                            RequestTempFileError,
                        >(
                            (RequestTempFileHandle {
                                request: raw,
                                pool,
                                owner: registry.owner,
                                generation: registry.generation,
                                state: place,
                                temp_file: None,
                            }),
                        )
                    },
                }
            },
        }
    }

    /// Whether the native objects that temporary-file state is created from can be read.
    pub open spec fn temp_file_ready(self, raw: usize) -> bool {
        &&& self.live(raw)
        &&& self.pool_resolves(raw)
        &&& self.holds_every_slot(self.requests@[raw].loc_conf)
        &&& self.conf_in(self.requests@[raw].loc_conf, self.core_module) matches Ok(Some(_))
            ==> self.requests@[raw].core_location is Some
    }
}

impl RequestTempFileHandle {
    /// Temporary-file state for a request. Its file is created with the first bytes.
    pub fn new(request: &RequestRefMut, native: &mut NativeState) -> (result: Result<
        Self,
        RequestTempFileError,
    >)
        requires
            old(native).temp_file_ready(request.raw),
        ensures
            final(native).temp_file_created(*old(native), request.raw, result),
    {
        let pool = match request.pool(native) {
            Ok(pool) => pool,
            Err(error) => return Err(RequestTempFileError::from(error)),
        };
        let core_module = native.core_module;
        match request.location_conf(native, core_module) {
            Ok(Some(_)) => {},
            Ok(None) => return Err(RequestTempFileError::MissingCoreLocationConfiguration),
            Err(error) => return Err(RequestTempFileError::from(error)),
        }
        let path = native.request(request.raw).core_location.unwrap().client_body_temp_path;
        if path == 0 {
            return Err(RequestTempFileError::MissingTempPath);
        }
        if !is_aligned(path) {
            return Err(RequestTempFileError::MisalignedTempPath);
        }
        let log = match request.log(native) {
            Ok(Some(log)) => log,
            Ok(None) => return Err(RequestTempFileError::MissingLog),
            Err(error) => return Err(RequestTempFileError::from(error)),
        };
        let main = match request.view().main_raw(native) {
            Ok(main) => main,
            Err(error) => return Err(RequestTempFileError::from(error)),
        };
        assert(native.resolves(native.requests@[request.raw].main));
        match get_or_create_request_context_registry(native, pool, main) {
            Ok(_) => {},
            Err(error) => return Err(RequestTempFileError::from(error)),
        }
        let registry: &RequestContextRegistry = native.pool(pool).registry.as_ref().unwrap();
        let owner = registry.owner;
        let generation = registry.generation;
        Ok(
            RequestTempFileHandle {
                request: request.raw,
                pool,
                owner,
                generation,
                state: RequestTempFileState { path, log },
                temp_file: None,
            },
        )
    }

    /// Whether the handle belongs to the current generation of `raw`, or why it does not.
    pub open spec fn belongs(self, native: NativeState, raw: usize) -> Result<
        usize,
        RequestTempFileError,
    > {
        match native.pool_of(raw) {
            Err(error) => Err(RequestTempFileError::Request(error)),
            Ok(pool) => match native.registry_of(raw) {
                None => Err(RequestTempFileError::ForeignRequest),
                Some(registry) => if registry.stale(native) || self.owner != registry.owner
                    || self.generation != registry.generation || self.request != raw || self.pool
                    != pool {
                    Err(RequestTempFileError::ForeignRequest)
                } else {
                    Ok(pool)
                },
            },
        }
    }

    /// The pool of the request, when the handle belongs to its current generation.
    pub fn checked_pool(&self, request: &RequestRefMut, native: &NativeState) -> (result: Result<
        usize,
        RequestTempFileError,
    >)
        requires
            native.requests@.contains_key(request.raw),
            native.registry_ready(request.raw),
        ensures
            result == self.belongs(*native, request.raw),
    {
        let pool = match request.pool(native) {
            Ok(pool) => pool,
            Err(error) => return Err(RequestTempFileError::from(error)),
        };
        match &native.pool(pool).registry {
            None => Err(RequestTempFileError::ForeignRequest),
            Some(registry) => {
                if registry.has_stale(native) || self.owner != registry.owner || self.generation
                    != registry.generation || self.request != request.raw || self.pool != pool {
                    return Err(RequestTempFileError::ForeignRequest);
                }
                Ok(pool)
            },
        }
    }

    /// Releases the temporary file after every returned file buffer has been discarded.
    ///
    /// The matching request-pool cleanup is disarmed; its handler is then to be run on the
    /// descriptor that comes out. The file structure, which stays in the pool, has no descriptor
    /// any more. A state that has not created a file is a no-op. A missing
    /// cleanup leaves the request-pool cleanup list unchanged.
    pub fn release(self, request: &RequestRefMut, native: &mut NativeState) -> (result: Result<
        Option<ReleasedTempFile>,
        RequestTempFileError,
    >)
        requires
            old(native).requests@.contains_key(request.raw),
            old(native).registry_ready(request.raw),
        ensures
            *final(native) == (NativeState { pools: final(native).pools, ..*old(native) }),
            match self.belongs(*old(native), request.raw) {
                Err(error) => {
                    &&& result == Err::<Option<ReleasedTempFile>, RequestTempFileError>(error)
                    &&& final(native).pools@ == old(native).pools@
                },
                Ok(pool) => if self.temp_file is None || self.temp_file->0.fd == NGX_INVALID_FILE {
                    &&& result == Ok::<Option<ReleasedTempFile>, RequestTempFileError>(None)
                    &&& final(native).pools@ == old(native).pools@
                } else {
                    let fd = self.temp_file->0.fd;
                    let files = old(native).pools@[pool].files@;
                    match first_armed(files, fd) {
                        None => {
                            &&& result == Err::<Option<ReleasedTempFile>, RequestTempFileError>(
                                RequestTempFileError::MissingCleanup,
                            )
                            &&& final(native).pools@ == old(native).pools@
                        },
                        Some(index) => {
                            let after = final(native).pools@[pool];
                            &&& result == Ok::<Option<ReleasedTempFile>, RequestTempFileError>(
                                Some(
                                    (ReleasedTempFile {
                                        fd,
                                        temp_file: NativeTempFile {
                                            fd: NGX_INVALID_FILE,
                                            ..self.temp_file->0
                                        },
                                    }),
                                ),
                            )
                            &&& final(native).pools@ == old(native).pools@.insert(pool, after)
                            &&& after == (NativePool {
                                files: after.files,
                                ..old(native).pools@[pool]
                            })
                            &&& after.files@ == files.update(
                                index,
                                (FileCleanup { armed: false, ..files[index] }),
                            )
                        },
                    }
                },
            },
    {
        let address = match self.checked_pool(request, native) {
            Ok(address) => address,
            Err(error) => return Err(error),
        };
        let mut temp_file = match self.temp_file {
            Some(temp_file) => temp_file,
            None => return Ok(None),
        };
        let fd = temp_file.fd;
        if fd == NGX_INVALID_FILE {
            return Ok(None);
        }
        let mut pool = native.take_pool(address);
        let ghost files = pool.files@;
        let mut index: usize = 0;
        assert(files.skip(0) =~= files);
        while index < pool.files.len()
            invariant
                index <= pool.files@.len(),
                pool == old(native).pools@[address],
                files == pool.files@,
                first_armed(files, fd) == (match first_armed(files.skip(index as int), fd) {
                    Some(i) => Some(i + index),
                    None => None,
                }),
                *native == (NativeState { pools: native.pools, ..*old(native) }),
                native.pools@ == old(native).pools@.remove(address),
                old(native).pools@.contains_key(address),
                self.belongs(*old(native), request.raw) == Ok::<usize, RequestTempFileError>(
                    address,
                ),
                self.temp_file == Some(temp_file),
                self.temp_file->0.fd == fd,
                fd != NGX_INVALID_FILE,
            decreases pool.files@.len() - index,
        {
            let entry = pool.files[index];
            assert(files.skip(index as int).drop_first() =~= files.skip(index + 1));
            if entry.armed && entry.fd == fd {
                pool.files.set(index, FileCleanup { fd: entry.fd, armed: false });
                native.put_pool(address, pool);
                assert(native.pools@ =~= old(native).pools@.insert(address, pool));
                temp_file.fd = NGX_INVALID_FILE;
                return Ok(Some(ReleasedTempFile { fd, temp_file }));
            }
            index = index + 1;
        }
        assert(files.skip(index as int) =~= Seq::empty());
        native.put_pool(address, pool);
        assert(native.pools@ =~= old(native).pools@);
        Err(RequestTempFileError::MissingCleanup)
    }
}

/// The first armed entry for a descriptor.
pub open spec fn first_armed(files: Seq<FileCleanup>, fd: i32) -> Option<int>
    decreases files.len(),
{
    if files.len() == 0 {
        None
    } else if files[0].armed && files[0].fd == fd {
        Some(0)
    } else {
        match first_armed(files.drop_first(), fd) {
            Some(index) => Some(index + 1),
            None => None,
        }
    }
}

/// What a buffer that is appended to a temporary file holds.
#[derive(Clone, Copy, Debug, PartialEq, Eq, Structural)]
pub enum TempFileContent {
    /// Nonempty memory, which is written.
    Memory { length: usize },
    /// A file range, which is kept.
    File { range: FileRange },
    /// Nothing but control flags.
    Control,
}

/// A buffer that is appended to a temporary file.
#[derive(Clone, Copy, Debug, PartialEq, Eq, Structural)]
pub struct TempFileSegment {
    pub content: TempFileContent,
    /// Control flags of the buffer that comes out.
    pub flags: BufferFlags,
}

/// What nginx did when it was asked to write a buffer to a temporary file.
#[derive(Clone, Copy, Debug, PartialEq, Eq, Structural)]
pub struct TempFileWrite {
    /// What nginx reported: the bytes written, or a negative status.
    pub written: isize,
    /// Offset of the file behind the bytes that were written.
    pub end: i64,
    /// Descriptor of the file.
    pub fd: i32,
}

/// What is next when buffers are appended to a temporary file.
#[derive(Clone, Copy, Debug, PartialEq, Eq, Structural)]
pub enum TempFileStep {
    /// Nginx is to write the memory of input buffer `index`, and its answer is to be handed to
    /// [`TempFileAppend::written`].
    Write { index: usize },
    /// A buffer was appended, and there may be more.
    Appended,
    /// All buffers were appended.
    Complete,
}

/// Buffers on their way to a temporary file.
#[derive(Debug)]
pub struct TempFileAppend {
    /// The pool, by its address.
    pub pool: usize,
    pub segments: Vec<TempFileSegment>,
    /// One buffer for each segment that was appended.
    pub output: PoolChain,
    /// Offset of the temporary file when the first segment was taken up.
    pub base: i64,
    /// The range of a write that nginx was asked for.
    pub pending: Option<(i64, i64)>,
}

impl TempFileSegment {
    /// Number of bytes that the segment adds to the temporary file.
    pub open spec fn adds(self) -> nat {
        match self.content {
            TempFileContent::Memory { length } => length as nat,
            _ => 0,
        }
    }

    /// Number of bytes that `segments` add to the temporary file.
    pub open spec fn total(segments: Seq<TempFileSegment>) -> nat
        decreases segments.len(),
    {
        if segments.len() == 0 {
            0
        } else {
            Self::total(segments.drop_last()) + segments.last().adds()
        }
    }

    /// The buffer that comes out for the segment, when its bytes go to `start` of `file`.
    pub open spec fn output(self, file: usize, start: int) -> NativeBuffer {
        NativeBuffer {
            memory: None,
            file: match self.content {
                TempFileContent::Memory { length } => Some(
                    FileRange { file, pos: start as i64, last: (start + length) as i64 },
                ),
                TempFileContent::File { range } => Some(range),
                TempFileContent::Control => None,
            },
            flags: self.flags,
        }
    }

    /// Whether the segment stands for `buffer`, with `flags`.
    pub open spec fn stands_for(self, buffer: NativeBuffer, flags: BufferFlags) -> bool {
        &&& self.flags == flags
        &&& match buffer.holds() {
            Err(_) => false,
            Ok(crate::buffer::BufferKind::Memory(bytes)) => self.content == (
            TempFileContent::Memory { length: bytes.len() as usize }) && 0 < bytes.len()
                <= usize::MAX,
            Ok(crate::buffer::BufferKind::File(range)) => self.content == (TempFileContent::File {
                range,
            }),
            Ok(crate::buffer::BufferKind::Control) => self.content == TempFileContent::Control,
        }
    }

    /// The segment that stands for a buffer.
    pub fn of(buffer: &NativeBuffer, flags: BufferFlags) -> (result: Result<Self, BufferError>)
        ensures
            match buffer.holds() {
                Err(error) => result == Err::<Self, BufferError>(error),
                Ok(_) => result matches Ok(segment) && segment.stands_for(*buffer, flags),
            },
    {
        let content = match buffer.kind() {
            Ok(BufferView::Memory(bytes)) => TempFileContent::Memory { length: bytes.len() },
            Ok(BufferView::File(view)) => TempFileContent::File {
                range: FileRange { file: view.file, pos: view.start, last: view.end },
            },
            Ok(BufferView::Control(_)) => TempFileContent::Control,
            Err(error) => return Err(error),
        };
        Ok(TempFileSegment { content, flags })
    }
}

impl RequestTempFileHandle {
    /// Where the next bytes go.
    pub open spec fn offset(self) -> i64 {
        match self.temp_file {
            Some(temp_file) => temp_file.offset,
            None => 0,
        }
    }

    /// The file structure, once there is one.
    pub open spec fn file(self) -> usize {
        self.temp_file->Some_0.file
    }

    /// What is wrong with the first bad one of `links`.
    pub open spec fn input_fault(links: Seq<Pointer<NativeBuffer>>) -> Option<RequestTempFileError>
        decreases links.len(),
    {
        if links.len() == 0 {
            None
        } else {
            match Self::input_fault(links.drop_last()) {
                Some(error) => Some(error),
                None => match links.last() {
                    Pointer::Null => Some(RequestTempFileError::Chain(ChainError::NullBuffer)),
                    Pointer::Misaligned => Some(
                        RequestTempFileError::Chain(ChainError::MisalignedBuffer),
                    ),
                    Pointer::To(buffer) => match buffer.holds() {
                        Err(error) => Some(RequestTempFileError::Buffer(error)),
                        Ok(_) => None,
                    },
                },
            }
        }
    }

    /// The first fault of a sequence is the first fault of any prefix that has one.
    proof fn lemma_input_fault(links: Seq<Pointer<NativeBuffer>>, count: int)
        requires
            0 <= count <= links.len(),
            Self::input_fault(links.take(count)) is Some,
        ensures
            Self::input_fault(links) == Self::input_fault(links.take(count)),
        decreases links.len(),
    {
        if count < links.len() {
            assert(links.drop_last().take(count) =~= links.take(count));
            Self::lemma_input_fault(links.drop_last(), count);
        } else {
            assert(links.take(count) =~= links);
        }
    }

    /// Whether `begun` appends `links` with their own flags.
    pub open spec fn begins(
        self,
        begun: TempFileAppend,
        pool: usize,
        links: Seq<Pointer<NativeBuffer>>,
    ) -> bool {
        &&& begun.wf(self)
        &&& begun.pool == pool
        &&& begun.output.buffers@.len() == 0
        &&& begun.pending is None
        &&& begun.base == self.offset()
        &&& begun.segments@.len() == links.len()
        &&& forall|i: int|
            0 <= i < links.len() ==> (#[trigger] begun.segments@[i]).stands_for(
                links[i]->To_0,
                links[i]->To_0.flags,
            )
    }

    /// Takes up one checked nginx chain. All of the chain is validated before anything is written.
    ///
    /// Nonempty memory buffers are appended to this temporary file. File-backed buffers receive
    /// request-pool file descriptors over their original ranges, and zero-size control buffers
    /// retain their control flags without opening a temporary file.
    pub fn append(&mut self, request: &RequestRefMut, native: &NativeState, input: ChainRef<'_>) -> (result:
        Result<TempFileAppend, RequestTempFileError>)
        requires
            native.requests@.contains_key(request.raw),
            native.registry_ready(request.raw),
        ensures
            *final(self) == *old(self),
            match old(self).belongs(*native, request.raw) {
                Err(error) => result matches Err(e) && e == error,
                Ok(pool) => match Self::input_fault(input.links()) {
                    Some(error) => result matches Err(e) && e == error,
                    None => result matches Ok(begun) && old(self).begins(
                        begun,
                        pool,
                        input.links(),
                    ),
                },
            },
    {
        match self.checked_pool(request, native) {
            Ok(pool) => self.append_with_pool(pool, input),
            Err(error) => Err(error),
        }
    }

    /// Takes up a chain for a checked pool.
    fn append_with_pool(&self, pool: usize, input: ChainRef<'_>) -> (result: Result<
        TempFileAppend,
        RequestTempFileError,
    >)
        ensures
            match Self::input_fault(input.links()) {
                Some(error) => result matches Err(e) && e == error,
                None => result matches Ok(begun) && self.begins(begun, pool, input.links()),
            },
    {
        let ghost links = input.links();
        let mut segments: Vec<TempFileSegment> = Vec::new();
        let mut index: usize = 0;
        assert(links.take(0) =~= Seq::empty());
        while index < input.len()
            invariant
                links == input.links(),
                index <= links.len(),
                Self::input_fault(links.take(index as int)) is None,
                segments@.len() == index,
                forall|i: int|
                    0 <= i < index ==> (#[trigger] segments@[i]).stands_for(
                        links[i]->To_0,
                        links[i]->To_0.flags,
                    ),
            decreases links.len() - index,
        {
            proof {
                assert(links.take(index + 1).drop_last() =~= links.take(index as int));
                assert(links.take(index + 1).last() == links[index as int]);
                if Self::input_fault(links.take(index + 1)) is Some {
                    Self::lemma_input_fault(links, index + 1);
                }
            }
            let buffer = match input.get(index) {
                Ok(buffer) => buffer,
                Err(error) => return Err(RequestTempFileError::from(error)),
            };
            match TempFileSegment::of(buffer, buffer.flags) {
                Ok(segment) => segments.push(segment),
                Err(error) => return Err(RequestTempFileError::from(error)),
            }
            index = index + 1;
        }
        assert(links.take(index as int) =~= links);
        Ok(self.take_up(pool, segments))
    }

    /// Takes up validated segments.
    fn take_up(&self, pool: usize, segments: Vec<TempFileSegment>) -> (result: TempFileAppend)
        ensures
            result.wf(*self),
            result.pool == pool,
            result.segments@ == segments@,
            result.output.buffers@.len() == 0,
            result.pending is None,
            result.base == self.offset(),
    {
        let base = match &self.temp_file {
            Some(temp_file) => temp_file.offset,
            None => 0,
        };
        assert(segments@.take(0) =~= Seq::empty());
        TempFileAppend { pool, segments, output: PoolChain::new(pool), base, pending: None }
    }

    /// Takes up one checked buffer, whose output gets the given flags.
    ///
    /// Nonempty memory is written to the persistent temporary file. File and control buffers are
    /// recreated in the request pool without opening a temporary file.
    pub fn append_buffer(
        &mut self,
        request: &RequestRefMut,
        native: &NativeState,
        input: &NativeBuffer,
        flags: BufferFlags,
    ) -> (result: Result<TempFileAppend, RequestTempFileError>)
        requires
            native.requests@.contains_key(request.raw),
            native.registry_ready(request.raw),
        ensures
            *final(self) == *old(self),
            match old(self).belongs(*native, request.raw) {
                Err(error) => result matches Err(e) && e == error,
                Ok(pool) => match input.holds() {
                    Err(error) => result matches Err(e) && e == RequestTempFileError::Buffer(error),
                    Ok(_) => {
                        &&& result matches Ok(begun)
                        &&& begun.wf(*old(self))
                        &&& begun.pool == pool
                        &&& begun.output.buffers@.len() == 0
                        &&& begun.pending is None
                        &&& begun.base == old(self).offset()
                        &&& begun.segments@.len() == 1
                        &&& begun.segments@[0].stands_for(*input, flags)
                    },
                },
            },
    {
        let pool = match self.checked_pool(request, native) {
            Ok(pool) => pool,
            Err(error) => return Err(error),
        };
        let segment = match TempFileSegment::of(input, flags) {
            Ok(segment) => segment,
            Err(error) => return Err(RequestTempFileError::from(error)),
        };
        let mut segments: Vec<TempFileSegment> = Vec::new();
        segments.push(segment);
        Ok(self.take_up(pool, segments))
    }

    /// The temporary file that was created, if it was not there before.
    pub open spec fn file_created(
        self,
        before: RequestTempFileHandle,
        native: NativeState,
        native_before: NativeState,
        pool: usize,
    ) -> bool {
        match before.temp_file {
            Some(_) => self == before && native.drew(native_before, pool, 0),
            None => {
                let blocks = native_before.pools@[pool].blocks@;
                &&& blocks.len() > 0
                &&& native.drew(native_before, pool, 1)
                &&& self == (RequestTempFileHandle {
                    temp_file: Some(
                        NativeTempFile {
                            file: blocks.last(),
                            fd: NGX_INVALID_FILE,
                            offset: 0,
                            path: before.state.path,
                            log: before.state.log,
                            pool: before.pool,
                            access: 0o600,
                            log_level: NGX_LOG_WARN,
                            clean: true,
                        },
                    ),
                    ..before
                })
            },
        }
    }

    /// Creates the temporary file, unless it is there.
    fn temp_file(&mut self, native: &mut NativeState, address: usize) -> (result: Result<
        (),
        RequestTempFileError,
    >)
        requires
            old(native).pools@.contains_key(address),
        ensures
            *final(native) == (NativeState { pools: final(native).pools, ..*old(native) }),
            final(native).drew_from(*old(native), address),
            match result {
                Err(error) => {
                    &&& error == RequestTempFileError::Allocation
                    &&& old(self).temp_file is None
                    &&& old(native).pools@[address].blocks@.len() == 0
                    &&& *final(self) == *old(self)
                },
                Ok(_) => final(self).file_created(
                    *old(self),
                    *final(native),
                    *old(native),
                    address,
                ),
            },
    {
        proof {
            NativePool::lemma_spend(native.pools@[address].blocks@, 0, 1);
            NativePool::lemma_spend(native.pools@[address].blocks@, 1, 0);
            assert(native.pools@ =~= native.pools@.insert(address, native.pools@[address]));
        }
        if self.temp_file.is_some() {
            return Ok(());
        }
        let mut pool = native.take_pool(address);
        let block = pool.allocate();
        native.put_pool(address, pool);
        assert(native.pools@ =~= old(native).pools@.insert(address, pool));
        match block {
            None => Err(RequestTempFileError::Allocation),
            Some(file) => {
                self.temp_file = Some(
                    NativeTempFile {
                        file,
                        fd: NGX_INVALID_FILE,
                        offset: 0,
                        path: self.state.path,
                        log: self.state.log,
                        pool: self.pool,
                        access: 0o600,
                        log_level: NGX_LOG_WARN,
                        clean: true,
                    },
                );
                Ok(())
            },
        }
    }
}

impl TempFileAppend {
    /// Whether the output is that of the segments so far, and the handle stands behind their bytes.
    pub open spec fn wf(self, handle: RequestTempFileHandle) -> bool {
        let done = self.output.buffers@.len() as int;
        &&& done <= self.segments@.len()
        &&& self.output.pool == self.pool
        &&& handle.offset() == self.base + TempFileSegment::total(self.segments@.take(done))
        &&& forall|i: int|
            0 <= i < done ==> #[trigger] self.output.buffers@[i] == self.expected(handle, i)
        &&& self.pending matches Some((start, end)) ==> {
            &&& done < self.segments@.len()
            &&& handle.temp_file is Some
            &&& self.segments@[done].content matches TempFileContent::Memory { length }
            &&& range_behind(handle.offset(), length) == Ok::<(i64, i64), RequestTempFileError>(
                (start, end),
            )
        }
        &&& forall|i: int|
            0 <= i < done && (#[trigger] self.segments@[i]).content is Memory
                ==> handle.temp_file is Some
    }

    /// The buffer that comes out for segment `i`.
    pub open spec fn expected(self, handle: RequestTempFileHandle, i: int) -> NativeBuffer {
        self.segments@[i].output(
            handle.file(),
            self.base + TempFileSegment::total(self.segments@.take(i)),
        )
    }
}

impl TempFileAppend {
    /// Takes up the next segment.
    ///
    /// A memory segment waits for nginx to write it; any other is appended to the output.
    pub fn step(&mut self, handle: &mut RequestTempFileHandle, native: &mut NativeState) -> (result:
        Result<TempFileStep, RequestTempFileError>)
        requires
            old(self).wf(*old(handle)),
            old(self).pending is None,
            old(native).pools@.contains_key(old(self).pool),
        ensures
            *final(native) == (NativeState { pools: final(native).pools, ..*old(native) }),
            final(native).drew_from(*old(native), old(self).pool),
            ({
                let done = old(self).output.buffers@.len() as int;
                let blocks = old(native).pools@[old(self).pool].blocks@;
                if done == old(self).segments@.len() {
                    &&& result == Ok::<TempFileStep, RequestTempFileError>(TempFileStep::Complete)
                    &&& *final(self) == *old(self)
                    &&& *final(handle) == *old(handle)
                    &&& final(native).pools@ == old(native).pools@
                } else {
                    match old(self).segments@[done].content {
                        TempFileContent::Memory { length } => if old(handle).temp_file is None
                            && blocks.len() == 0 {
                            &&& result == Err::<TempFileStep, RequestTempFileError>(
                                RequestTempFileError::Allocation,
                            )
                            &&& *final(self) == *old(self)
                            &&& *final(handle) == *old(handle)
                        } else {
                            &&& final(handle).file_created(
                                *old(handle),
                                *final(native),
                                *old(native),
                                old(self).pool,
                            )
                            &&& match range_behind(old(handle).offset(), length) {
                                Err(error) => {
                                    &&& result == Err::<TempFileStep, RequestTempFileError>(error)
                                    &&& *final(self) == *old(self)
                                },
                                Ok(range) => {
                                    &&& result == Ok::<TempFileStep, RequestTempFileError>(
                                        (TempFileStep::Write { index: done as usize }),
                                    )
                                    &&& *final(self) == (TempFileAppend {
                                        pending: Some(range),
                                        ..*old(self)
                                    })
                                    &&& final(self).wf(*final(handle))
                                },
                            }
                        },
                        _ => {
                            &&& *final(handle) == *old(handle)
                            &&& if blocks.len() < 2 {
                                &&& result == Err::<TempFileStep, RequestTempFileError>(
                                    if blocks.len() == 0 {
                                        RequestTempFileError::Buffer(BufferError::Allocation)
                                    } else {
                                        RequestTempFileError::Chain(ChainError::Allocation)
                                    },
                                )
                                &&& *final(self) == *old(self)
                            } else {
                                &&& result == Ok::<TempFileStep, RequestTempFileError>(
                                    TempFileStep::Appended,
                                )
                                &&& final(native).drew(*old(native), old(self).pool, 2)
                                &&& final(self).appended(*old(self))
                                &&& final(self).output.buffers@.last() == old(self).expected(
                                    *old(handle),
                                    done,
                                )
                                &&& final(self).wf(*final(handle))
                            }
                        },
                    }
                }
            }),
    {
        let done = self.output.buffers.len();
        proof {
            NativePool::lemma_spend(native.pools@[self.pool].blocks@, 0, 0);
            assert(native.pools@ =~= native.pools@.insert(self.pool, native.pools@[self.pool]));
        }
        if done == self.segments.len() {
            return Ok(TempFileStep::Complete);
        }
        let segment = self.segments[done];
        match segment.content {
            TempFileContent::Memory { length } => {
                match handle.temp_file(native, self.pool) {
                    Ok(_) => {},
                    Err(error) => return Err(error),
                }
                let offset = handle.temp_file.unwrap().offset;
                match temp_file_range(offset, length) {
                    Ok(range) => {
                        self.pending = Some(range);
                        proof {
                            assert forall|i: int| 0 <= i < done implies #[trigger]
                                self.output.buffers@[i] == self.expected(*handle, i) by {
                                assert(old(self).output.buffers@[i] == old(self).expected(
                                    *old(handle),
                                    i,
                                ));
                            }
                        }
                        Ok(TempFileStep::Write { index: done })
                    },
                    Err(error) => Err(error),
                }
            },
            TempFileContent::File { range } => {
                match self.put(native, segment.flags, Some(range)) {
                    Ok(_) => {
                        proof {
                            self.lemma_grown(*old(self), *handle, *handle);
                        }
                        Ok(TempFileStep::Appended)
                    },
                    Err(error) => Err(error),
                }
            },
            TempFileContent::Control => {
                match self.put(native, segment.flags, None) {
                    Ok(_) => {
                        proof {
                            self.lemma_grown(*old(self), *handle, *handle);
                        }
                        Ok(TempFileStep::Appended)
                    },
                    Err(error) => Err(error),
                }
            },
        }
    }

    /// Whether this is `before` with one more buffer in the output.
    pub open spec fn appended(self, before: TempFileAppend) -> bool {
        &&& self == (TempFileAppend { output: self.output, pending: None, ..before })
        &&& self.output.pool == before.output.pool
        &&& self.output.buffers@.len() == before.output.buffers@.len() + 1
        &&& self.output.buffers@.drop_last() == before.output.buffers@
    }

    /// Appending the expected buffer keeps the output that of the segments.
    proof fn lemma_grown(
        self,
        before: TempFileAppend,
        handle: RequestTempFileHandle,
        handle_before: RequestTempFileHandle,
    )
        requires
            before.wf(handle_before),
            before.output.buffers@.len() < before.segments@.len(),
            self.appended(before),
            self.output.buffers@.last() == before.expected(
                handle_before,
                before.output.buffers@.len() as int,
            ),
            handle_before.temp_file is Some ==> handle.temp_file is Some && handle.file()
                == handle_before.file(),
            handle.offset() == handle_before.offset()
                + before.segments@[before.output.buffers@.len() as int].adds(),
            before.segments@[before.output.buffers@.len() as int].content is Memory
                ==> handle_before.temp_file is Some,
        ensures
            self.wf(handle),
    {
        let done = before.output.buffers@.len() as int;
        let segments = self.segments@;
        assert(segments.take(done + 1).drop_last() =~= segments.take(done));
        assert(segments.take(done + 1).last() == segments[done]);
        assert forall|i: int| 0 <= i < done + 1 implies #[trigger] self.output.buffers@[i]
            == self.expected(handle, i) by {
            if i < done {
                assert(self.output.buffers@.drop_last()[i] == self.output.buffers@[i]);
                assert(before.output.buffers@[i] == before.expected(handle_before, i));
            }
        }
    }

    /// Appends a buffer over `range`, or a control buffer, to the output.
    fn put(&mut self, native: &mut NativeState, flags: BufferFlags, range: Option<FileRange>) -> (result:
        Result<(), RequestTempFileError>)
        requires
            old(self).output.pool == old(self).pool,
            old(native).pools@.contains_key(old(self).pool),
        ensures
            *final(native) == (NativeState { pools: final(native).pools, ..*old(native) }),
            final(native).drew_from(*old(native), old(self).pool),
            ({
                let blocks = old(native).pools@[old(self).pool].blocks@;
                match result {
                    Err(error) => {
                        &&& *final(self) == *old(self)
                        &&& blocks.len() < 2
                        &&& error == (if blocks.len() == 0 {
                            RequestTempFileError::Buffer(BufferError::Allocation)
                        } else {
                            RequestTempFileError::Chain(ChainError::Allocation)
                        })
                    },
                    Ok(_) => {
                        &&& blocks.len() >= 2
                        &&& final(native).drew(*old(native), old(self).pool, 2)
                        &&& *final(self) == (TempFileAppend {
                            output: final(self).output,
                            ..*old(self)
                        })
                        &&& final(self).output.pool == old(self).output.pool
                        &&& final(self).output.buffers@ == old(self).output.buffers@.push(
                            NativeBuffer { memory: None, file: range, flags },
                        )
                        &&& final(self).output.buffers@.drop_last() == old(self).output.buffers@
                    },
                }
            }),
    {
        let ghost blocks = native.pools@[self.pool].blocks@;
        proof {
            NativePool::lemma_spend(blocks, 1, 1);
        }
        let mut pool = native.take_pool(self.pool);
        let made = match range {
            Some(range) => pool.file_buffer(range, flags),
            None => pool.control_buffer(flags),
        };
        let result = match made {
            Ok(buffer) => {
                let ghost left = pool.blocks@;
                let linked = self.output.append(
                    &mut pool,
                    PoolBuffer { pool: self.pool, buffer },
                );
                proof {
                    crate::request::header_list::lemma_spent_twice(pool.blocks@, left, blocks);
                }
                match linked {
                    Ok(_) => {
                        assert(self.output.buffers@.drop_last() =~= old(self).output.buffers@);
                        Ok(())
                    },
                    Err(error) => Err(RequestTempFileError::from(error)),
                }
            },
            Err(error) => Err(RequestTempFileError::from(error)),
        };
        native.put_pool(self.pool, pool);
        assert(native.pools@ =~= old(native).pools@.insert(self.pool, pool));
        result
    }

    /// What the handle is once nginx answered a write.
    pub open spec fn after_write(
        handle: RequestTempFileHandle,
        start: i64,
        write: TempFileWrite,
    ) -> RequestTempFileHandle {
        RequestTempFileHandle {
            temp_file: Some(
                NativeTempFile {
                    fd: write.fd,
                    offset: if write.end < start {
                        handle.temp_file->Some_0.offset
                    } else {
                        write.end
                    },
                    ..handle.temp_file->Some_0
                },
            ),
            ..handle
        }
    }

    /// Why a write that nginx answered cannot be used.
    pub open spec fn write_fault(range: (i64, i64), length: usize, write: TempFileWrite) -> Option<
        RequestTempFileError,
    > {
        if write.end < range.0 || write.written < 0 {
            Some(RequestTempFileError::Write)
        } else if write.written != length {
            Some(
                RequestTempFileError::ShortWrite {
                    expected: length,
                    written: write.written as usize,
                },
            )
        } else if write.end != range.1 {
            Some(RequestTempFileError::Write)
        } else {
            None
        }
    }

    /// Goes on with what nginx answered to a write.
    ///
    /// The bytes that nginx wrote stay in the file, whether or not a buffer comes out for them.
    pub fn written(
        &mut self,
        handle: &mut RequestTempFileHandle,
        native: &mut NativeState,
        write: TempFileWrite,
    ) -> (result: Result<(), RequestTempFileError>)
        requires
            old(self).wf(*old(handle)),
            old(self).pending is Some,
            old(native).pools@.contains_key(old(self).pool),
        ensures
            *final(native) == (NativeState { pools: final(native).pools, ..*old(native) }),
            final(native).drew_from(*old(native), old(self).pool),
            ({
                let done = old(self).output.buffers@.len() as int;
                let blocks = old(native).pools@[old(self).pool].blocks@;
                let range = old(self).pending->Some_0;
                let length = old(self).segments@[done].content->length;
                &&& *final(handle) == Self::after_write(*old(handle), range.0, write)
                &&& match Self::write_fault(range, length, write) {
                    Some(error) => {
                        &&& result == Err::<(), RequestTempFileError>(error)
                        &&& final(native).pools@ == old(native).pools@
                        &&& *final(self) == (TempFileAppend { pending: None, ..*old(self) })
                    },
                    None => if blocks.len() < 2 {
                        &&& result == Err::<(), RequestTempFileError>(
                            if blocks.len() == 0 {
                                RequestTempFileError::Allocation
                            } else {
                                RequestTempFileError::Chain(ChainError::Allocation)
                            },
                        )
                        &&& *final(self) == (TempFileAppend { pending: None, ..*old(self) })
                    } else {
                        &&& result == Ok::<(), RequestTempFileError>(())
                        &&& final(native).drew(*old(native), old(self).pool, 2)
                        &&& final(self).appended(*old(self))
                        &&& final(self).output.buffers@.last() == old(self).expected(
                            *old(handle),
                            done,
                        )
                        &&& final(self).wf(*final(handle))
                    },
                }
            }),
    {
        let done = self.output.buffers.len();
        let segment = self.segments[done];
        let (start, end) = self.pending.unwrap();
        self.pending = None;
        let ghost started = *self;
        proof {
            NativePool::lemma_spend(native.pools@[self.pool].blocks@, 0, 0);
            assert(native.pools@ =~= native.pools@.insert(self.pool, native.pools@[self.pool]));
        }
        let mut temp_file = handle.temp_file.unwrap();
        temp_file.fd = write.fd;
        if write.end < start {
            handle.temp_file = Some(temp_file);
            return Err(RequestTempFileError::Write);
        }
        temp_file.offset = write.end;
        handle.temp_file = Some(temp_file);
        let length = match segment.content {
            TempFileContent::Memory { length } => length,
            _ => 0,
        };
        match check_temp_file_write(length, write.written) {
            Ok(_) => {},
            Err(error) => return Err(error),
        }
        if write.end != end {
            return Err(RequestTempFileError::Write);
        }
        let range = FileRange { file: temp_file.file, pos: start, last: end };
        match self.put(native, segment.flags, Some(range)) {
            Ok(_) => {
                proof {
                    self.lemma_grown(*old(self), *handle, *old(handle));
                }
                Ok(())
            },
            Err(RequestTempFileError::Buffer(_)) => Err(RequestTempFileError::Allocation),
            Err(error) => Err(error),
        }
    }

    /// The output, once every segment was appended.
    pub fn into_output(self, handle: &RequestTempFileHandle) -> (result: PoolChain)
        requires
            self.wf(*handle),
            self.output.buffers@.len() == self.segments@.len(),
        ensures
            result.pool == self.pool,
            result.buffers@ == Seq::new(
                self.segments@.len(),
                |i: int| self.expected(*handle, i),
            ),
    {
        assert(self.output.buffers@ =~= Seq::new(
            self.segments@.len(),
            |i: int| self.expected(*handle, i),
        ));
        self.output
    }
}

impl RequestTempFile {
    /// A temporary file for a request.
    pub fn new(request: &RequestRefMut, native: &mut NativeState) -> (result: Result<
        Self,
        RequestTempFileError,
    >)
        requires
            old(native).temp_file_ready(request.raw),
        ensures
            match result {
                Err(error) => final(native).temp_file_created(
                    *old(native),
                    request.raw,
                    Err(error),
                ),
                Ok(file) => final(native).temp_file_created(
                    *old(native),
                    request.raw,
                    Ok(file.state),
                ) && file.pool == old(native).requests@[request.raw].pool,
            },
    {
        let pool = match request.pool(native) {
            Ok(pool) => pool,
            Err(error) => return Err(RequestTempFileError::from(error)),
        };
        match RequestTempFileHandle::new(request, native) {
            Ok(state) => Ok(RequestTempFile { state, pool }),
            Err(error) => Err(error),
        }
    }

    /// Takes up one checked nginx chain. All of the chain is validated before anything is written.
    ///
    /// Nonempty memory buffers are appended to this temporary file. File-backed buffers receive
    /// request-pool file descriptors over their original ranges, and zero-size control buffers
    /// retain their control flags without opening a temporary file.
    pub fn append(&mut self, input: ChainRef<'_>) -> (result: Result<
        TempFileAppend,
        RequestTempFileError,
    >)
        ensures
            *final(self) == *old(self),
            match RequestTempFileHandle::input_fault(input.links()) {
                Some(error) => result matches Err(e) && e == error,
                None => result matches Ok(begun) && old(self).state.begins(
                    begun,
                    old(self).pool,
                    input.links(),
                ),
            },
    {
        self.state.append_with_pool(self.pool, input)
    }
}

impl RequestRefMut {
    /// Creates request-pool state for the configured HTTP temporary-file path.
    ///
    /// The owner allocates its native state and opens its file only when a nonempty memory buffer
    /// is appended through [`RequestTempFile::append`].
    pub fn temp_file(&self, native: &mut NativeState) -> (result: Result<
        RequestTempFile,
        RequestTempFileError,
    >)
        requires
            old(native).temp_file_ready(self.raw),
        ensures
            match result {
                Err(error) => final(native).temp_file_created(*old(native), self.raw, Err(error)),
                Ok(file) => final(native).temp_file_created(
                    *old(native),
                    self.raw,
                    Ok(file.state),
                ) && file.pool == old(native).requests@[self.raw].pool,
            },
    {
        RequestTempFile::new(self, native)
    }

    /// Creates a checked handle for temporary-file state retained by a request-pool context.
    ///
    /// The handle can be reused by later callbacks for this request; each append still requires a
    /// current callback-scoped request view and returns callback-scoped output.
    pub fn temp_file_state(&self, native: &mut NativeState) -> (result: Result<
        RequestTempFileHandle,
        RequestTempFileError,
    >)
        requires
            old(native).temp_file_ready(self.raw),
        ensures
            final(native).temp_file_created(*old(native), self.raw, result),
    {
        RequestTempFileHandle::new(self, native)
    }
}

impl TempFileSegment {
    /// Earlier segments add no more than later ones do.
    proof fn lemma_total_grows(segments: Seq<TempFileSegment>, i: int, j: int)
        requires
            0 <= i <= j <= segments.len(),
        ensures
            Self::total(segments.take(i)) <= Self::total(segments.take(j)),
        decreases j - i,
    {
        if i < j {
            assert(segments.take(j).drop_last() =~= segments.take(j - 1));
            Self::lemma_total_grows(segments, i, j - 1);
        }
    }
}

impl TempFileAppend {
    /// The ranges that come out for memory segments follow each other without gap or overlap, from
    /// the offset that the temporary file had.
    pub proof fn law_written_ranges_abut(self, handle: RequestTempFileHandle, i: int)
        requires
            self.wf(handle),
            0 <= i < self.output.buffers@.len(),
            self.segments@[i].content is Memory,
        ensures
            ({
                let range = self.output.buffers@[i].file->Some_0;
                &&& self.output.buffers@[i].file is Some
                &&& range.file == handle.file()
                &&& range.pos == self.base + TempFileSegment::total(self.segments@.take(i))
                &&& range.last == self.base + TempFileSegment::total(self.segments@.take(i + 1))
            }),
    {
        let done = self.output.buffers@.len() as int;
        let segments = self.segments@;
        assert(segments.take(i + 1).drop_last() =~= segments.take(i));
        assert(segments.take(i + 1).last() == segments[i]);
        assert(segments.take(0) =~= Seq::empty());
        TempFileSegment::lemma_total_grows(segments, 0, i);
        TempFileSegment::lemma_total_grows(segments, i + 1, done);
        assert(self.output.buffers@[i] == self.expected(handle, i));
    }
}

} // verus!
