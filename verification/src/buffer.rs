//! Buffers and buffer chains in request pools.

use vstd::prelude::*;
use vstd::slice::{slice_subrange, slice_to_vec};

use crate::native::{NativePool, Pointer};

verus! {

/// Control flags of a buffer.
#[derive(Clone, Copy, Debug, PartialEq, Eq, Structural)]
pub struct BufferFlags {
    pub flush: bool,
    pub sync: bool,
    pub last_buf: bool,
    pub last_in_chain: bool,
}

impl Default for BufferFlags {
    fn default() -> (result: Self)
        ensures
            result == (BufferFlags {
                flush: false,
                sync: false,
                last_buf: false,
                last_in_chain: false,
            }),
    {
        BufferFlags { flush: false, sync: false, last_buf: false, last_in_chain: false }
    }
}

/// The memory range of a buffer: the storage and the offsets of the readable bytes in it.
#[derive(Debug)]
pub struct MemoryRange {
    pub bytes: Vec<u8>,
    pub pos: usize,
    pub last: usize,
}

/// The file range of a buffer.
#[derive(Clone, Copy, Debug, PartialEq, Eq, Structural)]
pub struct FileRange {
    /// The file, by its address.
    pub file: usize,
    pub pos: i64,
    pub last: i64,
}

/// A native buffer.
#[derive(Debug)]
pub struct NativeBuffer {
    pub memory: Option<MemoryRange>,
    pub file: Option<FileRange>,
    pub flags: BufferFlags,
}

/// Failure while reading or preparing a buffer.
#[derive(Clone, Copy, Debug, PartialEq, Eq, Structural)]
pub enum BufferError {
    /// The memory range ends before it starts or outside its storage.
    InvalidMemoryRange,
    /// The file range is negative or ends before it starts.
    InvalidFileRange,
    /// A file-backed buffer has no file.
    MissingFile,
    /// The length of the buffer cannot be represented.
    LengthOverflow,
    /// The buffer belongs to another pool.
    ForeignPool,
    /// Nginx could not allocate request-pool storage.
    Allocation,
}

/// Failure while reading or extending a buffer chain.
#[derive(Clone, Copy, Debug, PartialEq, Eq, Structural)]
pub enum ChainError {
    /// The chain pointer is misaligned.
    MisalignedLink,
    /// A link has no buffer.
    NullBuffer,
    /// A link's buffer pointer is misaligned.
    MisalignedBuffer,
    /// A buffer of the chain is malformed or foreign.
    Buffer(BufferError),
    /// Nginx could not allocate a link.
    Allocation,
}

impl From<BufferError> for ChainError {
    fn from(error: BufferError) -> (result: Self) {
        ChainError::Buffer(error)
    }
}

impl vstd::std_specs::convert::FromSpecImpl<BufferError> for ChainError {
    open spec fn obeys_from_spec() -> bool {
        true
    }

    open spec fn from_spec(error: BufferError) -> Self {
        ChainError::Buffer(error)
    }
}

/// What a buffer holds.
pub enum BufferKind {
    /// These bytes.
    Memory(Seq<u8>),
    /// A range of a file.
    File(FileRange),
    /// Nothing but control flags.
    Control,
}

/// A checked file range of a buffer.
#[derive(Clone, Copy, Debug, PartialEq, Eq, Structural)]
pub struct FileView {
    pub file: usize,
    pub start: i64,
    pub end: i64,
}

impl FileView {
    /// First offset of the range.
    pub fn start(&self) -> (result: i64)
        ensures
            result == self.start,
    {
        self.start
    }

    /// Offset behind the range.
    pub fn end(&self) -> (result: i64)
        ensures
            result == self.end,
    {
        self.end
    }

    /// Address of the file.
    pub fn file_ptr(&self) -> (result: usize)
        ensures
            result == self.file,
    {
        self.file
    }
}

/// A checked zero-size buffer.
#[derive(Clone, Copy, Debug, PartialEq, Eq, Structural)]
pub struct ControlView {
    pub flags: BufferFlags,
}

/// What a checked buffer holds.
#[derive(Clone, Copy, Debug, PartialEq, Eq)]
pub enum BufferView<'a> {
    /// Nonempty memory.
    Memory(&'a [u8]),
    /// A file range.
    File(FileView),
    /// Nothing but control flags.
    Control(ControlView),
}

impl NativeBuffer {
    /// What the buffer holds, or what is wrong with it.
    pub open spec fn holds(self) -> Result<BufferKind, BufferError> {
        match self.memory {
            Some(memory) => if memory.pos > memory.last || memory.last > memory.bytes@.len() {
                Err(BufferError::InvalidMemoryRange)
            } else if memory.pos < memory.last {
                Ok(
                    BufferKind::Memory(
                        memory.bytes@.subrange(memory.pos as int, memory.last as int),
                    ),
                )
            } else {
                self.holds_file()
            },
            None => self.holds_file(),
        }
    }

    /// What a buffer without memory bytes holds.
    pub open spec fn holds_file(self) -> Result<BufferKind, BufferError> {
        match self.file {
            Some(range) => if range.file == 0 {
                Err(BufferError::MissingFile)
            } else if range.pos < 0 || range.last < range.pos {
                Err(BufferError::InvalidFileRange)
            } else {
                Ok(BufferKind::File(range))
            },
            None => Ok(BufferKind::Control),
        }
    }

    /// Number of bytes that the buffer holds.
    pub open spec fn size(self) -> nat {
        match self.holds() {
            Ok(BufferKind::Memory(bytes)) => bytes.len(),
            Ok(BufferKind::File(range)) => (range.last - range.pos) as nat,
            _ => 0,
        }
    }

    /// The length of the buffer, or what is wrong with it.
    pub open spec fn measured(self) -> Result<usize, BufferError> {
        match self.holds() {
            Err(error) => Err(error),
            Ok(_) => if self.size() > usize::MAX {
                Err(BufferError::LengthOverflow)
            } else {
                Ok(self.size() as usize)
            },
        }
    }

    /// What the buffer holds, checked.
    pub fn kind(&self) -> (result: Result<BufferView<'_>, BufferError>)
        ensures
            match self.holds() {
                Err(error) => result matches Err(e) && e == error,
                Ok(BufferKind::Memory(bytes)) => result matches Ok(BufferView::Memory(b)) && b@
                    == bytes,
                Ok(BufferKind::File(range)) => result matches Ok(BufferView::File(view)) && view
                    == (FileView { file: range.file, start: range.pos, end: range.last }),
                Ok(BufferKind::Control) => result matches Ok(BufferView::Control(view))
                    && view.flags == self.flags,
            },
    {
        match &self.memory {
            Some(memory) => {
                if memory.pos > memory.last || memory.last > memory.bytes.len() {
                    return Err(BufferError::InvalidMemoryRange);
                }
                if memory.pos < memory.last {
                    return Ok(
                        BufferView::Memory(
                            slice_subrange(memory.bytes.as_slice(), memory.pos, memory.last),
                        ),
                    );
                }
            },
            None => {},
        }
        match self.file {
            Some(range) => {
                if range.file == 0 {
                    return Err(BufferError::MissingFile);
                }
                if range.pos < 0 || range.last < range.pos {
                    return Err(BufferError::InvalidFileRange);
                }
                Ok(
                    BufferView::File(
                        FileView { file: range.file, start: range.pos, end: range.last },
                    ),
                )
            },
            None => Ok(BufferView::Control(ControlView { flags: self.flags })),
        }
    }

    /// Number of bytes that the buffer holds.
    pub fn len(&self) -> (result: Result<usize, BufferError>)
        ensures
            result == self.measured(),
    {
        match self.kind() {
            Err(error) => Err(error),
            Ok(BufferView::Memory(bytes)) => Ok(bytes.len()),
            Ok(BufferView::File(view)) => {
                let length: u64 = (view.end - view.start) as u64;
                if length > usize::MAX as u64 {
                    return Err(BufferError::LengthOverflow);
                }
                Ok(length as usize)
            },
            Ok(BufferView::Control(_)) => Ok(0),
        }
    }

    /// The memory bytes of the buffer, if it holds any.
    pub fn bytes(&self) -> (result: Result<Option<&[u8]>, BufferError>)
        ensures
            match self.holds() {
                Err(error) => result matches Err(e) && e == error,
                Ok(BufferKind::Memory(bytes)) => result matches Ok(Some(b)) && b@ == bytes,
                Ok(_) => result matches Ok(None),
            },
    {
        match self.kind() {
            Err(error) => Err(error),
            Ok(BufferView::Memory(bytes)) => Ok(Some(bytes)),
            Ok(_) => Ok(None),
        }
    }

    /// The file range of the buffer, if it is file-backed.
    pub fn file(&self) -> (result: Result<Option<FileView>, BufferError>)
        ensures
            match self.holds() {
                Err(error) => result == Err::<Option<FileView>, BufferError>(error),
                Ok(BufferKind::File(range)) => result == Ok::<Option<FileView>, BufferError>(
                    Some(FileView { file: range.file, start: range.pos, end: range.last }),
                ),
                Ok(_) => result == Ok::<Option<FileView>, BufferError>(None),
            },
    {
        match self.kind() {
            Err(error) => Err(error),
            Ok(BufferView::File(view)) => Ok(Some(view)),
            Ok(_) => Ok(None),
        }
    }

    /// Control flags of the buffer.
    pub fn flags(&self) -> (result: BufferFlags)
        ensures
            result == self.flags,
    {
        self.flags
    }
}

/// A buffer that a pool owns.
#[derive(Debug)]
pub struct PoolBuffer {
    /// The pool, by its address.
    pub pool: usize,
    pub buffer: NativeBuffer,
}

/// A chain of buffers that a pool owns.
#[derive(Debug)]
pub struct PoolChain {
    /// The pool, by its address.
    pub pool: usize,
    pub buffers: Vec<NativeBuffer>,
}

/// The links of a native chain, each with its buffer pointer.
pub type NativeChain = Vec<Pointer<NativeBuffer>>;

impl NativePool {
    /// Copies bytes into a buffer of the pool.
    pub fn copy_buffer(&mut self, bytes: &[u8], flags: BufferFlags) -> (result: Result<
        NativeBuffer,
        BufferError,
    >)
        ensures
            *final(self) == (NativePool { blocks: final(self).blocks, ..*old(self) }),
            NativePool::spent_from(final(self).blocks@, old(self).blocks@),
            match result {
                Err(error) => error == BufferError::Allocation && old(self).blocks@.len() < 2,
                Ok(buffer) => {
                    &&& old(self).blocks@.len() >= 2
                    &&& final(self).blocks@ == NativePool::spend(old(self).blocks@, 2)
                    &&& buffer.flags == flags
                    &&& buffer.file is None
                    &&& buffer.holds() == Ok::<BufferKind, BufferError>(
                        if bytes@.len() == 0 {
                            BufferKind::Control
                        } else {
                            BufferKind::Memory(bytes@)
                        },
                    )
                },
            },
    {
        proof {
            NativePool::lemma_spend(self.blocks@, 1, 1);
        }
        if self.allocate().is_none() {
            return Err(BufferError::Allocation);
        }
        if self.allocate().is_none() {
            return Err(BufferError::Allocation);
        }
        let copy = slice_to_vec(bytes);
        let last = copy.len();
        assert(copy@.subrange(0, last as int) =~= bytes@);
        Ok(NativeBuffer { memory: Some(MemoryRange { bytes: copy, pos: 0, last }), file: None, flags })
    }

    /// Makes a zero-size buffer of the pool.
    pub fn control_buffer(&mut self, flags: BufferFlags) -> (result: Result<
        NativeBuffer,
        BufferError,
    >)
        ensures
            *final(self) == (NativePool { blocks: final(self).blocks, ..*old(self) }),
            NativePool::spent_from(final(self).blocks@, old(self).blocks@),
            match result {
                Err(error) => error == BufferError::Allocation && old(self).blocks@.len() == 0,
                Ok(buffer) => {
                    &&& old(self).blocks@.len() > 0
                    &&& final(self).blocks@ == NativePool::spend(old(self).blocks@, 1)
                    &&& buffer == (NativeBuffer { memory: None, file: None, flags })
                },
            },
    {
        proof {
            NativePool::lemma_spend(self.blocks@, 1, 1);
        }
        if self.allocate().is_none() {
            return Err(BufferError::Allocation);
        }
        Ok(NativeBuffer { memory: None, file: None, flags })
    }

    /// Makes a buffer of the pool over a file range.
    pub fn file_buffer(&mut self, range: FileRange, flags: BufferFlags) -> (result: Result<
        NativeBuffer,
        BufferError,
    >)
        ensures
            *final(self) == (NativePool { blocks: final(self).blocks, ..*old(self) }),
            NativePool::spent_from(final(self).blocks@, old(self).blocks@),
            match result {
                Err(error) => error == BufferError::Allocation && old(self).blocks@.len() == 0,
                Ok(buffer) => {
                    &&& old(self).blocks@.len() > 0
                    &&& final(self).blocks@ == NativePool::spend(old(self).blocks@, 1)
                    &&& buffer == (NativeBuffer { memory: None, file: Some(range), flags })
                },
            },
    {
        proof {
            NativePool::lemma_spend(self.blocks@, 1, 1);
        }
        if self.allocate().is_none() {
            return Err(BufferError::Allocation);
        }
        Ok(NativeBuffer { memory: None, file: Some(range), flags })
    }
}

impl PoolChain {
    /// The chain without buffers.
    pub fn new(pool: usize) -> (result: PoolChain)
        ensures
            result.pool == pool,
            result.buffers@.len() == 0,
    {
        PoolChain { pool, buffers: Vec::new() }
    }

    /// Appends a buffer to the chain, with a link from the pool.
    pub fn append(&mut self, pool: &mut NativePool, buffer: PoolBuffer) -> (result: Result<
        (),
        ChainError,
    >)
        ensures
            final(self).pool == old(self).pool,
            *final(pool) == (NativePool { blocks: final(pool).blocks, ..*old(pool) }),
            NativePool::spent_from(final(pool).blocks@, old(pool).blocks@),
            match result {
                Err(error) => {
                    &&& *final(self) == *old(self)
                    &&& if buffer.pool != old(self).pool {
                        error == ChainError::Buffer(BufferError::ForeignPool)
                    } else {
                        error == ChainError::Allocation && old(pool).blocks@.len() == 0
                    }
                },
                Ok(_) => {
                    &&& buffer.pool == old(self).pool
                    &&& old(pool).blocks@.len() > 0
                    &&& final(pool).blocks@ == NativePool::spend(old(pool).blocks@, 1)
                    &&& final(self).buffers@ == old(self).buffers@.push(buffer.buffer)
                },
            },
    {
        proof {
            NativePool::lemma_spend(pool.blocks@, 1, 0);
            NativePool::lemma_spend(pool.blocks@, 0, 0);
        }
        if buffer.pool != self.pool {
            return Err(ChainError::Buffer(BufferError::ForeignPool));
        }
        if pool.allocate().is_none() {
            return Err(ChainError::Allocation);
        }
        self.buffers.push(buffer.buffer);
        Ok(())
    }
}

} // verus!
