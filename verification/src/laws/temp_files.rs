//! Temporary files: their ranges, what an append puts out, and who may use one.

use vstd::prelude::*;

use crate::buffer::{BufferError, BufferFlags, ChainError, NativeBuffer, PoolChain};
use crate::laws::values::{buffer_error, file_sound, in_memory, memory_sound};
use crate::native::{FileCleanup, NativeState, Pointer};
use crate::request::body::ChainRef;
use crate::request::context::RequestContextError;
use crate::request::temp_file::{
    check_temp_file_write, first_armed, range_behind, temp_file_range, NativeTempFile,
    ReleasedTempFile, RequestTempFile, RequestTempFileError, RequestTempFileHandle, TempFileAppend,
    TempFileContent, TempFileSegment, TempFileStep, TempFileWrite,
};
use crate::request::view::RequestRefMut;

verus! {

/// A range begins at its offset and is as long as it has to be; it exists exactly if neither end is
/// negative nor past the largest offset.
pub proof fn law_ranges_are_as_long_as_asked(offset: i64, length: usize)
    ensures
        forall|result: Result<(i64, i64), RequestTempFileError>| #[trigger]
            call_ensures(temp_file_range, (offset, length), result) ==> {
                &&& result is Ok <==> offset >= 0 && offset + length <= 0x7fff_ffff_ffff_ffff
                &&& result matches Ok(range) ==> range.0 == offset && range.1 - range.0 == length
                &&& result matches Err(error) ==> {
                    &&& error == RequestTempFileError::NegativeOffset <==> offset < 0
                    &&& error == RequestTempFileError::LengthOverflow <==> offset >= 0 && length
                        > 0x7fff_ffff_ffff_ffff
                    &&& error == RequestTempFileError::OffsetOverflow <==> offset >= 0 && length
                        <= 0x7fff_ffff_ffff_ffff
                }
            },
        range_behind(offset, length) is Ok <==> offset >= 0 && offset + length
            <= 0x7fff_ffff_ffff_ffff,
        range_behind(offset, length) matches Ok(range) ==> range.0 == offset && range.1 - range.0
            == length,
{
}

/// A write succeeded exactly if it wrote everything; a negative count is a failure, any other is
/// reported with both numbers.
pub proof fn law_writes_write_everything(expected: usize, written: isize)
    ensures
        forall|result: Result<(), RequestTempFileError>| #[trigger]
            call_ensures(check_temp_file_write, (expected, written), result) ==> {
                &&& result is Ok <==> written == expected
                &&& result matches Err(error) ==> {
                    &&& error == RequestTempFileError::Write <==> written < 0
                    &&& written >= 0 ==> error == (RequestTempFileError::ShortWrite {
                        expected,
                        written: written as usize,
                    })
                }
            },
{
}

/// Whether a request has all that a temporary file needs.
pub open spec fn file_possible(native: NativeState, raw: usize) -> bool {
    let request = native.requests@[raw];
    let module = native.core_module;
    let path = request.core_location->0.client_body_temp_path;
    &&& request.pool != 0 && request.pool % 8 == 0
    &&& module.type_ == 0x50545448
    &&& module.index < native.max_module && module.ctx_index < native.http_max_module
    &&& request.loc_conf is To && request.loc_conf->To_0@[module.ctx_index as int] != 0
    &&& path != 0 && path % 8 == 0
    &&& native.log_of(raw) is Ok && native.log_of(raw)->Ok_0 is Some
    &&& native.main_of(raw) is Ok
}

/// Whether a temporary file was prepared for a request, or why not.
pub open spec fn file_prepared(
    before: NativeState,
    after: NativeState,
    raw: usize,
    result: Result<RequestTempFileHandle, RequestTempFileError>,
) -> bool {
    let request = before.requests@[raw];
    let pool = request.pool;
    let path = request.core_location->0.client_body_temp_path;
    let registered = before.pools@[pool].registry is Some;
    let registrable = registered || before.next_owner < usize::MAX
        && before.pools@[pool].blocks@.len() >= 2;
    &&& result is Ok <==> file_possible(before, raw) && registrable
    &&& result matches Ok(handle) ==> {
        &&& handle.request == raw
        &&& handle.pool == pool
        &&& handle.state.path == path
        &&& Some(handle.state.log) == before.log_of(raw)->Ok_0
        &&& handle.temp_file is None
        &&& after.pools@[pool].registry is Some
        &&& handle.owner == after.pools@[pool].registry->0.owner
        &&& handle.generation == after.pools@[pool].registry->0.generation
        &&& registered ==> after.pools@ == before.pools@
    }
    &&& result matches Err(error) ==> {
        &&& file_possible(before, raw) ==> error == RequestTempFileError::Owner(
            RequestContextError::Allocation,
        )
        &&& error == RequestTempFileError::MissingTempPath ==> path == 0
        &&& error == RequestTempFileError::MisalignedTempPath ==> path % 8 != 0
        &&& error == RequestTempFileError::MissingLog ==> before.log_of(raw) is Ok
            && before.log_of(raw)->Ok_0 is None
        &&& error == RequestTempFileError::MissingCoreLocationConfiguration
            ==> request.loc_conf is Null || request.loc_conf is To
            && request.loc_conf->To_0@[before.core_module.ctx_index as int] == 0
        &&& !file_possible(before, raw) ==> after.requests@ == before.requests@ && after.pools@
            == before.pools@
    }
}

/// A temporary file is prepared for its own request, pool and generation, with the path and the log
/// of that request; no file is opened yet.
pub proof fn law_temp_files_are_prepared_for_one_request(view: RequestRefMut)
    ensures
        forall|
            request: &RequestRefMut,
            native: &mut NativeState,
            result: Result<RequestTempFileHandle, RequestTempFileError>,
        | #[trigger]
            call_ensures(RequestTempFileHandle::new, (request, native), result) ==> file_prepared(
                *native,
                *final(native),
                request.raw,
                result,
            ),
        forall|
            native: &mut NativeState,
            result: Result<RequestTempFileHandle, RequestTempFileError>,
        | #[trigger]
            call_ensures(RequestRefMut::temp_file_state, (&view, native), result) ==> file_prepared(
                *native,
                *final(native),
                view.raw,
                result,
            ),
        forall|
            request: &RequestRefMut,
            native: &mut NativeState,
            result: Result<RequestTempFile, RequestTempFileError>,
        | #[trigger]
            call_ensures(RequestTempFile::new, (request, native), result) ==> file_wrapped(
                *native,
                *final(native),
                request.raw,
                result,
            ),
        forall|native: &mut NativeState, result: Result<RequestTempFile, RequestTempFileError>|
         #[trigger]
            call_ensures(RequestRefMut::temp_file, (&view, native), result) ==> file_wrapped(
                *native,
                *final(native),
                view.raw,
                result,
            ),
{
}

/// Whether a temporary file was prepared together with its pool, or why not.
pub open spec fn file_wrapped(
    before: NativeState,
    after: NativeState,
    raw: usize,
    result: Result<RequestTempFile, RequestTempFileError>,
) -> bool {
    match result {
        Ok(file) => file_prepared(before, after, raw, Ok(file.state)) && file.pool
            == before.requests@[raw].pool,
        Err(error) => file_prepared(before, after, raw, Err(error)),
    }
}

/// Whether a handle belongs to a request as it is now: its request, pool, owner and generation are
/// those of the handle, and no context of it is stale.
pub open spec fn handle_valid(
    handle: RequestTempFileHandle,
    native: NativeState,
    raw: usize,
) -> bool {
    let pool = native.requests@[raw].pool;
    let registry = native.pools@[pool].registry->0;
    &&& pool != 0 && pool % 8 == 0
    &&& native.pools@[pool].registry is Some
    &&& handle.request == raw
    &&& handle.pool == pool
    &&& handle.owner == registry.owner
    &&& handle.generation == registry.generation
    &&& forall|i: int|
        0 <= i < registry.registrations@.len() ==> {
            let registration = #[trigger] registry.registrations@[i];
            registration.active ==> native.slot(registration.request, registration.index)
                == registration.context
        }
}

/// A handle works for the request and the generation that it was made for, and for no other.
pub proof fn law_handles_belong_to_one_generation(
    handle: RequestTempFileHandle,
    request: RequestRefMut,
    native: NativeState,
)
    ensures
        forall|result: Result<usize, RequestTempFileError>| #[trigger]
            call_ensures(RequestTempFileHandle::checked_pool, (&handle, &request, &native), result)
                ==> {
                let pool = native.requests@[request.raw].pool;
                &&& result is Ok <==> handle_valid(handle, native, request.raw)
                &&& result matches Ok(checked) ==> checked == pool
                &&& result is Err && pool != 0 && pool % 8 == 0 ==> result->Err_0
                    == RequestTempFileError::ForeignRequest
                &&& pool == 0 || pool % 8 != 0 ==> result is Err && result->Err_0 is Request
            },
        handle.belongs(native, request.raw) is Ok <==> handle_valid(handle, native, request.raw),
{
    let pool = native.requests@[request.raw].pool;
    if pool != 0 && native.pools@[pool].registry is Some {
        let registry = native.pools@[pool].registry->0;
        if !registry.stale(native) {
            assert forall|i: int| 0 <= i < registry.registrations@.len() implies {
                let registration = #[trigger] registry.registrations@[i];
                registration.active ==> native.slot(registration.request, registration.index)
                    == registration.context
            } by {
                assert(!registry.registrations@[i].stale(native));
            }
        } else {
            let i = choose|i: int|
                0 <= i < registry.registrations@.len() && (
                #[trigger] registry.registrations@[i]).stale(native);
            assert(registry.registrations@[i].active);
        }
    }
}

/// The first armed cleanup of a descriptor is armed, is of that descriptor, and none before it is
/// both; where there is none, none is.
pub proof fn law_first_armed_is_the_first(files: Seq<FileCleanup>, fd: i32)
    ensures
        match first_armed(files, fd) {
            Some(index) => {
                &&& 0 <= index < files.len()
                &&& files[index].armed && files[index].fd == fd
                &&& forall|i: int|
                    0 <= i < index ==> !((#[trigger] files[i]).armed && files[i].fd == fd)
            },
            None => forall|i: int|
                0 <= i < files.len() ==> !((#[trigger] files[i]).armed && files[i].fd == fd),
        },
    decreases files.len(),
{
    if files.len() > 0 {
        let rest = files.drop_first();
        law_first_armed_is_the_first(rest, fd);
        assert forall|i: int| 0 < i < files.len() implies rest[i - 1] == #[trigger] files[i] by {}
    }
}

/// Releasing an open file disarms its one cleanup and hands the descriptor out; a file that was not
/// opened is released without one. A foreign handle, or a file without its cleanup, changes nothing.
pub proof fn law_releases_disarm_one_cleanup(handle: RequestTempFileHandle, request: RequestRefMut)
    ensures
        forall|
            native: &mut NativeState,
            result: Result<Option<ReleasedTempFile>, RequestTempFileError>,
        | #[trigger]
            call_ensures(RequestTempFileHandle::release, (handle, &request, native), result) ==> {
                let pool = native.requests@[request.raw].pool;
                let open = handle.temp_file is Some && handle.temp_file->0.fd != -1;
                let fd = handle.temp_file->0.fd;
                let before = native.pools@[pool].files@;
                let after = final(native).pools@[pool].files@;
                let valid = handle_valid(handle, *native, request.raw);
                let armed = exists|i: int|
                    0 <= i < before.len() && (#[trigger] before[i]).armed && before[i].fd == fd;
                &&& !valid ==> result is Err && final(native).pools@ == native.pools@
                &&& valid && !open ==> result == Ok::<
                    Option<ReleasedTempFile>,
                    RequestTempFileError,
                >(None) && final(native).pools@ == native.pools@
                &&& valid && open && !armed ==> result is Err && result->Err_0
                    == RequestTempFileError::MissingCleanup && final(native).pools@
                    == native.pools@
                &&& valid && open && armed ==> {
                    &&& result is Ok && result->Ok_0 is Some
                    &&& result->Ok_0->0.fd == fd
                    &&& result->Ok_0->0.temp_file == (NativeTempFile {
                        fd: (-1) as i32,
                        ..handle.temp_file->0
                    })
                    &&& after.len() == before.len()
                    &&& exists|i: int|
                        #![trigger after[i]]
                        0 <= i < before.len() && before[i].armed && before[i].fd == fd
                            && !after[i].armed && after[i].fd == fd && forall|j: int|
                            0 <= j < before.len() && j != i ==> #[trigger] after[j] == before[j]
                }
                &&& final(native).requests == native.requests
            },
{
    assert forall|
        native: &mut NativeState,
        result: Result<Option<ReleasedTempFile>, RequestTempFileError>,
    | #[trigger]
        call_ensures(RequestTempFileHandle::release, (handle, &request, native), result) implies {
        let pool = native.requests@[request.raw].pool;
        let open = handle.temp_file is Some && handle.temp_file->0.fd != -1;
        let fd = handle.temp_file->0.fd;
        let before = native.pools@[pool].files@;
        let after = final(native).pools@[pool].files@;
        let valid = handle_valid(handle, *native, request.raw);
        let armed = exists|i: int|
            0 <= i < before.len() && (#[trigger] before[i]).armed && before[i].fd == fd;
        &&& !valid ==> result is Err && final(native).pools@ == native.pools@
        &&& valid && open && !armed ==> result is Err && result->Err_0
            == RequestTempFileError::MissingCleanup && final(native).pools@ == native.pools@
        &&& valid && open && armed ==> {
            &&& result is Ok && result->Ok_0 is Some
            &&& result->Ok_0->0.fd == fd
            &&& after.len() == before.len()
            &&& exists|i: int|
                #![trigger after[i]]
                0 <= i < before.len() && before[i].armed && before[i].fd == fd && !after[i].armed
                    && after[i].fd == fd && forall|j: int|
                    0 <= j < before.len() && j != i ==> #[trigger] after[j] == before[j]
        }
    } by {
        law_handles_belong_to_one_generation(handle, request, *native);
        let pool = native.requests@[request.raw].pool;
        let before = native.pools@[pool].files@;
        let after = final(native).pools@[pool].files@;
        let fd = handle.temp_file->0.fd;
        law_first_armed_is_the_first(before, fd);
        if first_armed(before, fd) is Some && handle_valid(handle, *native, request.raw)
            && handle.temp_file is Some && fd != -1 {
            let index = first_armed(before, fd)->0;
            assert(after[index].fd == fd);
        }
    }
    assert forall|
        native: &mut NativeState,
        result: Result<Option<ReleasedTempFile>, RequestTempFileError>,
    | #[trigger]
        call_ensures(RequestTempFileHandle::release, (handle, &request, native), result)
            && handle_valid(handle, *native, request.raw) implies handle.belongs(
        *native,
        request.raw,
    ) is Ok by {
        law_handles_belong_to_one_generation(handle, request, *native);
    }
}

/// Whether a segment stands for what a buffer holds.
pub open spec fn segment_of(
    segment: TempFileSegment,
    buffer: NativeBuffer,
    flags: BufferFlags,
) -> bool {
    &&& segment.flags == flags
    &&& memory_sound(buffer) && (in_memory(buffer) || file_sound(buffer))
    &&& segment.content is Memory <==> in_memory(buffer)
    &&& segment.content is File <==> !in_memory(buffer) && buffer.file is Some
    &&& segment.content matches TempFileContent::Memory { length } ==> length
        == buffer.memory->0.last - buffer.memory->0.pos
    &&& segment.content matches TempFileContent::File { range } ==> range == buffer.file->0
}

/// A segment stands for what its buffer holds, with the marks that it was given.
pub proof fn law_segments_stand_for_their_buffer(buffer: NativeBuffer, flags: BufferFlags)
    ensures
        forall|result: Result<TempFileSegment, BufferError>| #[trigger]
            call_ensures(TempFileSegment::of, (&buffer, flags), result) ==> {
                &&& result is Ok <==> memory_sound(buffer) && (in_memory(buffer) || file_sound(
                    buffer,
                ))
                &&& result matches Ok(segment) ==> segment_of(segment, buffer, flags)
                &&& result matches Err(error) ==> buffer_error(buffer, error)
            },
        forall|segment: TempFileSegment| #[trigger]
            segment.stands_for(buffer, flags) ==> segment_of(segment, buffer, flags),
{
}

/// A chain can be appended exactly if every link leads to a buffer that can be read; its first fault
/// is the fault.
pub proof fn law_input_faults_are_the_first(
    links: Seq<Pointer<NativeBuffer>>,
    link: Pointer<NativeBuffer>,
)
    ensures
        RequestTempFileHandle::input_fault(Seq::empty()) is None,
        RequestTempFileHandle::input_fault(links) is Some ==> RequestTempFileHandle::input_fault(
            links.push(link),
        ) == RequestTempFileHandle::input_fault(links),
        RequestTempFileHandle::input_fault(links) is None ==> {
            let fault = RequestTempFileHandle::input_fault(links.push(link));
            &&& fault is None <==> link is To && memory_sound(link->To_0) && (in_memory(link->To_0)
                || file_sound(link->To_0))
            &&& link is Null ==> fault == Some(
                RequestTempFileError::Chain(ChainError::NullBuffer),
            )
            &&& link is Misaligned ==> fault == Some(
                RequestTempFileError::Chain(ChainError::MisalignedBuffer),
            )
            &&& link is To && fault is Some ==> fault->0 is Buffer
        },
{
    assert(links.push(link).drop_last() =~= links);
}

/// Whether an append begins with one segment for each link of its input, in their order, and
/// nothing put out yet.
pub open spec fn append_begun(
    handle: RequestTempFileHandle,
    begun: TempFileAppend,
    pool: usize,
    links: Seq<Pointer<NativeBuffer>>,
) -> bool {
    &&& begun.pool == pool
    &&& begun.output.pool == pool
    &&& begun.output.buffers@.len() == 0
    &&& begun.pending is None
    &&& begun.base == (if handle.temp_file is Some {
        handle.temp_file->0.offset
    } else {
        0
    })
    &&& begun.segments@.len() == links.len()
    &&& forall|i: int|
        0 <= i < links.len() ==> segment_of(
            #[trigger] begun.segments@[i],
            links[i]->To_0,
            links[i]->To_0.flags,
        )
}

/// An append begins, for a handle that belongs to its request, with its input as it is; a refusal
/// or a beginning changes nothing of the handle.
pub proof fn law_appends_take_their_input(
    request: RequestRefMut,
    native: NativeState,
    input: ChainRef,
    buffer: NativeBuffer,
    flags: BufferFlags,
)
    ensures
        forall|
            handle: &mut RequestTempFileHandle,
            result: Result<TempFileAppend, RequestTempFileError>,
        | #[trigger]
            call_ensures(RequestTempFileHandle::append, (handle, &request, &native, input), result)
                ==> {
                let fault = RequestTempFileHandle::input_fault(input.links());
                &&& result is Ok <==> handle_valid(*handle, native, request.raw) && fault is None
                &&& result matches Ok(begun) ==> append_begun(
                    *handle,
                    begun,
                    native.requests@[request.raw].pool,
                    input.links(),
                )
                &&& result is Err && handle_valid(*handle, native, request.raw) ==> result->Err_0
                    == fault->0
                &&& *final(handle) == *handle
            },
        forall|
            handle: &mut RequestTempFileHandle,
            result: Result<TempFileAppend, RequestTempFileError>,
        | #[trigger]
            call_ensures(
                RequestTempFileHandle::append_buffer,
                (handle, &request, &native, &buffer, flags),
                result,
            ) ==> {
                let sound = memory_sound(buffer) && (in_memory(buffer) || file_sound(buffer));
                &&& result is Ok <==> handle_valid(*handle, native, request.raw) && sound
                &&& result matches Ok(begun) ==> {
                    &&& begun.pool == native.requests@[request.raw].pool
                    &&& begun.segments@.len() == 1
                    &&& segment_of(begun.segments@[0], buffer, flags)
                    &&& begun.output.buffers@.len() == 0
                    &&& begun.pending is None
                    &&& begun.base == (if handle.temp_file is Some {
                        handle.temp_file->0.offset
                    } else {
                        0
                    })
                }
                &&& result is Err && handle_valid(*handle, native, request.raw) ==> result->Err_0
                    is Buffer && buffer_error(buffer, result->Err_0->Buffer_0)
                &&& *final(handle) == *handle
            },
        forall|file: &mut RequestTempFile, result: Result<TempFileAppend, RequestTempFileError>|
         #[trigger]
            call_ensures(RequestTempFile::append, (file, input), result) ==> {
                let fault = RequestTempFileHandle::input_fault(input.links());
                &&& result is Ok <==> fault is None
                &&& result matches Ok(begun) ==> append_begun(
                    file.state,
                    begun,
                    file.pool,
                    input.links(),
                )
                &&& result matches Err(error) ==> Some(error) == fault
                &&& *final(file) == *file
            },
{
    assert forall|
        handle: &mut RequestTempFileHandle,
        result: Result<TempFileAppend, RequestTempFileError>,
    | #[trigger]
        call_ensures(RequestTempFileHandle::append, (handle, &request, &native, input), result) implies (
    handle.belongs(native, request.raw) is Ok <==> handle_valid(*handle, native, request.raw)) by {
        law_handles_belong_to_one_generation(*handle, request, native);
    }
    assert forall|
        handle: &mut RequestTempFileHandle,
        result: Result<TempFileAppend, RequestTempFileError>,
    | #[trigger]
        call_ensures(
            RequestTempFileHandle::append_buffer,
            (handle, &request, &native, &buffer, flags),
            result,
        ) implies (handle.belongs(native, request.raw) is Ok <==> handle_valid(
        *handle,
        native,
        request.raw,
    )) by {
        law_handles_belong_to_one_generation(*handle, request, native);
    }
}

/// Whether a handle has the file that it had, or a new one as nginx is to open it: with the path and
/// the log of the handle, no descriptor, nothing written, readable and writable by its owner alone,
/// and removed when it is closed.
pub open spec fn file_there(before: RequestTempFileHandle, after: RequestTempFileHandle) -> bool {
    &&& before.temp_file is Some ==> after == before
    &&& before.temp_file is None ==> {
        let file = after.temp_file->0;
        &&& after.temp_file is Some
        &&& after == (RequestTempFileHandle { temp_file: after.temp_file, ..before })
        &&& file.fd == -1
        &&& file.offset == 0
        &&& file.path == before.state.path
        &&& file.log == before.state.log
        &&& file.pool == before.pool
        &&& file.access == 384
        &&& file.log_level == 5
        &&& file.clean
    }
}

/// Each step of an append deals with the next segment: bytes in memory are to be written behind what
/// the file holds, a range of a file or a mark is put out as it is. When no segment is left the
/// append is complete.
pub proof fn law_steps_deal_with_the_next_segment()
    ensures
        forall|
            append: &mut TempFileAppend,
            handle: &mut RequestTempFileHandle,
            native: &mut NativeState,
            result: Result<TempFileStep, RequestTempFileError>,
        | #[trigger]
            call_ensures(TempFileAppend::step, (append, handle, native), result) ==> {
                let done = append.output.buffers.len() as int;
                let next = append.segments@[done];
                let blocks = native.pools@[append.pool].blocks@.len();
                let offset = if handle.temp_file is Some {
                    handle.temp_file->0.offset
                } else {
                    0
                };
                &&& done == append.segments@.len() <==> result == Ok::<
                    TempFileStep,
                    RequestTempFileError,
                >(TempFileStep::Complete)
                &&& done == append.segments@.len() ==> *final(append) == *append && *final(handle)
                    == *handle
                &&& done != append.segments@.len() && next.content is Memory ==> {
                    let length = next.content->length;
                    &&& result is Ok <==> (handle.temp_file is Some || blocks > 0) && offset >= 0
                        && offset + length <= 0x7fff_ffff_ffff_ffff
                    &&& result matches Ok(step) ==> {
                        &&& step is Write && step->index == done
                        &&& final(append).pending is Some
                        &&& (final(append).pending->0).0 == offset
                        &&& (final(append).pending->0).1 == offset + length
                        &&& final(append).output == append.output
                        &&& final(append).segments == append.segments
                        &&& file_there(*handle, *final(handle))
                    }
                    &&& result is Err ==> *final(append) == *append
                    &&& result matches Err(error) ==> (error == RequestTempFileError::Allocation
                        <==> handle.temp_file is None && blocks == 0)
                }
                &&& done != append.segments@.len() && !(next.content is Memory) ==> {
                    &&& result is Ok <==> blocks >= 2
                    &&& result matches Ok(step) ==> {
                        let put = final(append).output.buffers@.last();
                        &&& step is Appended
                        &&& final(append).output.buffers@.len() == done + 1
                        &&& final(append).output.buffers@.drop_last() == append.output.buffers@
                        &&& final(append).segments == append.segments
                        &&& put.memory is None
                        &&& put.flags == next.flags
                        &&& next.content matches TempFileContent::File { range } ==> put.file
                            == Some(range)
                        &&& next.content is Control ==> put.file is None
                    }
                    &&& result is Err ==> *final(append) == *append
                    &&& result matches Err(error) ==> error == (if blocks == 0 {
                        RequestTempFileError::Buffer(BufferError::Allocation)
                    } else {
                        RequestTempFileError::Chain(ChainError::Allocation)
                    })
                    &&& *final(handle) == *handle
                }
                &&& final(native).requests == native.requests
            },
{
}

/// A write that wrote everything up to the end of its range puts that range of the file out, behind
/// what was put out before; any other is a failure that puts nothing out. The file remembers how far
/// it was written unless that would lead back before the range.
pub proof fn law_written_ranges_are_put_out(write: TempFileWrite)
    ensures
        forall|
            append: &mut TempFileAppend,
            handle: &mut RequestTempFileHandle,
            native: &mut NativeState,
            result: Result<(), RequestTempFileError>,
        | #[trigger]
            call_ensures(TempFileAppend::written, (append, handle, native, write), result)
                && append.wf(*handle) && append.pending is Some ==> {
                let done = append.output.buffers@.len() as int;
                let range = append.pending->0;
                let length = append.segments@[done].content->length;
                let blocks = native.pools@[append.pool].blocks@.len();
                let complete = write.written == length && write.end == range.1;
                &&& result is Ok <==> complete && blocks >= 2
                &&& result is Ok ==> {
                    let put = final(append).output.buffers@.last();
                    &&& final(append).output.buffers@.len() == done + 1
                    &&& final(append).output.buffers@.drop_last() == append.output.buffers@
                    &&& put.memory is None
                    &&& put.flags == append.segments@[done].flags
                    &&& put.file is Some
                    &&& put.file->0.file == handle.temp_file->0.file
                    &&& put.file->0.pos == range.0
                    &&& put.file->0.last == range.1
                }
                &&& result is Err ==> final(append).output == append.output
                &&& result matches Err(error) ==> {
                    &&& write.written < 0 ==> error == RequestTempFileError::Write
                    &&& write.end >= range.0 && write.written >= 0 && write.written != length
                        ==> error == (RequestTempFileError::ShortWrite {
                        expected: length,
                        written: write.written as usize,
                    })
                    &&& write.written == length && write.end != range.1 ==> error
                        == RequestTempFileError::Write
                    &&& complete ==> error == (if blocks == 0 {
                        RequestTempFileError::Allocation
                    } else {
                        RequestTempFileError::Chain(ChainError::Allocation)
                    })
                }
                &&& final(append).pending is None
                &&& final(append).segments == append.segments
                &&& final(handle).temp_file is Some
                &&& final(handle).temp_file->0.fd == write.fd
                &&& final(handle).temp_file->0.offset == (if write.end < range.0 {
                    handle.temp_file->0.offset
                } else {
                    write.end
                })
                &&& final(handle).temp_file->0.file == handle.temp_file->0.file
                &&& final(handle).temp_file->0.path == handle.temp_file->0.path
                &&& final(native).requests == native.requests
            },
{
}

/// A complete append puts out one buffer for each segment, in their order: the range of the file
/// that holds its bytes, or the range or mark as it was. Ranges of written bytes abut.
pub proof fn law_complete_appends_put_everything_out(append: TempFileAppend)
    ensures
        forall|handle: &RequestTempFileHandle, result: PoolChain, i: int|
            #![trigger call_ensures(TempFileAppend::into_output, (append, handle), result), result.buffers@[i]]
            call_ensures(TempFileAppend::into_output, (append, handle), result) && append.wf(*handle)
                && append.output.buffers@.len() == append.segments@.len() && 0 <= i
                < append.segments@.len() ==> {
                let put = result.buffers@[i];
                let segment = append.segments@[i];
                &&& result.pool == append.pool
                &&& result.buffers@.len() == append.segments@.len()
                &&& put.memory is None
                &&& put.flags == segment.flags
                &&& segment.content is Control ==> put.file is None
                &&& segment.content matches TempFileContent::File { range } ==> put.file == Some(
                    range,
                )
                &&& segment.content matches TempFileContent::Memory { length } ==> {
                    &&& put.file is Some
                    &&& put.file->0.file == handle.temp_file->0.file
                    &&& put.file->0.pos == append.base + TempFileSegment::total(
                        append.segments@.take(i),
                    )
                    &&& put.file->0.last - put.file->0.pos == length
                }
            },
{
    assert forall|handle: &RequestTempFileHandle, result: PoolChain, i: int|
        #![trigger call_ensures(TempFileAppend::into_output, (append, handle), result), result.buffers@[i]]
        call_ensures(TempFileAppend::into_output, (append, handle), result) && append.wf(*handle)
            && append.output.buffers@.len() == append.segments@.len() && 0 <= i
            < append.segments@.len() && append.segments@[i].content is Memory implies ({
        let put = result.buffers@[i];
        &&& put.file->0.pos == append.base + TempFileSegment::total(append.segments@.take(i))
        &&& put.file->0.last - put.file->0.pos == append.segments@[i].content->length
    }) by {
        append.law_written_ranges_abut(*handle, i);
        assert(append.output.buffers@[i] == append.expected(*handle, i));
        assert(append.segments@.take(i + 1).drop_last() =~= append.segments@.take(i));
        assert(append.segments@.take(i + 1).last() == append.segments@[i]);
    }
}

/// The bytes that segments add to a file are those of their memory.
pub proof fn law_segments_add_their_memory(
    segments: Seq<TempFileSegment>,
    segment: TempFileSegment,
)
    ensures
        TempFileSegment::total(Seq::empty()) == 0,
        segment.content matches TempFileContent::Memory { length } ==> TempFileSegment::total(
            segments.push(segment),
        ) == TempFileSegment::total(segments) + length,
        !(segment.content is Memory) ==> TempFileSegment::total(segments.push(segment))
            == TempFileSegment::total(segments),
{
    assert(segments.push(segment).drop_last() =~= segments);
}

} // verus!
