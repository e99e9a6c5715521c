use ngx_http::buffer::{
    BufferError, BufferFlags, BufferView, ChainError, FileRange, MemoryRange, NativeBuffer,
    NativeChain, PoolChain,
};
use ngx_http::native::{
    CoreLocation, FileCleanup, HttpConfigError, ModuleDescriptor, NativeConnection, NativePool,
    NativeRequest, NativeState, Pointer, NGX_HTTP_MODULE,
};
use ngx_http::request::body::ChainRef;
use ngx_http::request::context::{
    advance_request_generation, get_or_create_request_context_registry,
    remove_request_context_registry, RequestContextError,
};
use ngx_http::request::temp_file::{
    check_temp_file_write, temp_file_range, NativeTempFile, RequestTempFileError, RequestTempFileHandle,
    TempFileAppend, TempFileStep, TempFileWrite, NGX_INVALID_FILE, NGX_LOG_WARN,
};
use ngx_http::request::view::{RequestError, RequestRefMut};

const RAW: usize = 0x1000;
const OTHER: usize = 0x1100;
const POOL: usize = 0x2000;
const PATH: usize = 0x3000;
const LOG: usize = 0x3100;
const FD: i32 = 63;

fn blocks(count: usize) -> Vec<usize> {
    (1..=count).map(|number| number * 0x10).collect()
}

fn zeroed_request() -> NativeRequest {
    let mut request = NativeRequest::zeroed();
    request.signature = NGX_HTTP_MODULE;
    request.main = RAW;
    request.parent = RAW;
    request.pool = POOL;
    request.connection = Pointer::To(NativeConnection {
        log: Pointer::To(LOG),
        sent: 0,
        data: RAW,
        write: Pointer::Null,
    });
    request.loc_conf = Pointer::To(vec![0x4000]);
    request.core_location = Some(CoreLocation { client_body_temp_path: PATH });
    request
}

fn fixture() -> NativeState {
    let mut native = NativeState::new(1, 1);
    native.core_module = ModuleDescriptor { type_: NGX_HTTP_MODULE, index: 0, ctx_index: 0 };
    native.pools.insert(POOL, NativePool::new(blocks(64)));
    native.requests.insert(RAW, zeroed_request());
    native
}

fn request(native: &NativeState) -> RequestRefMut {
    RequestRefMut::from_raw(native, RAW).unwrap()
}

fn memory(bytes: &[u8], flags: BufferFlags) -> NativeBuffer {
    NativeBuffer {
        memory: Some(MemoryRange { bytes: bytes.to_vec(), pos: 0, last: bytes.len() }),
        file: None,
        flags,
    }
}

fn file(file: usize, pos: i64, last: i64, flags: BufferFlags) -> NativeBuffer {
    NativeBuffer { memory: None, file: Some(FileRange { file, pos, last }), flags }
}

fn control(flags: BufferFlags) -> NativeBuffer {
    NativeBuffer { memory: None, file: None, flags }
}

fn chain(buffers: Vec<NativeBuffer>) -> NativeChain {
    buffers.into_iter().map(Pointer::To).collect()
}

/// What nginx keeps of a temporary file: the bytes on disk, and whether it can be opened.
struct Disk {
    bytes: Vec<u8>,
    missing: bool,
}

impl Disk {
    fn new() -> Self {
        Disk { bytes: Vec::new(), missing: false }
    }

    fn write(
        &mut self,
        native: &mut NativeState,
        handle: &RequestTempFileHandle,
        bytes: &[u8],
    ) -> TempFileWrite {
        let temp = handle.temp_file.unwrap();
        let mut fd = temp.fd;
        if fd == NGX_INVALID_FILE {
            let pool = native.pools.get_mut(&POOL).unwrap();
            if self.missing || pool.blocks.len() < 2 {
                return TempFileWrite { written: -1, end: 0, fd };
            }
            pool.blocks.truncate(pool.blocks.len() - 2);
            pool.files.push(FileCleanup { fd: FD, armed: true });
            fd = FD;
        }
        assert_eq!(self.bytes.len() as i64, temp.offset);
        self.bytes.extend_from_slice(bytes);
        TempFileWrite { written: bytes.len() as isize, end: self.bytes.len() as i64, fd }
    }
}

fn link(input: &NativeChain, index: usize) -> &NativeBuffer {
    match &input[index] {
        Pointer::To(buffer) => buffer,
        _ => unreachable!(),
    }
}

fn finish(
    mut append: TempFileAppend,
    handle: &mut RequestTempFileHandle,
    native: &mut NativeState,
    disk: &mut Disk,
    input: &NativeChain,
) -> Result<PoolChain, RequestTempFileError> {
    loop {
        match append.step(handle, native)? {
            TempFileStep::Write { index } => {
                let bytes = link(input, index).bytes().unwrap().unwrap();
                let write = disk.write(native, handle, bytes);
                append.written(handle, native, write)?;
            }
            TempFileStep::Appended => {}
            TempFileStep::Complete => return Ok(append.into_output(handle)),
        }
    }
}

fn append(
    handle: &mut RequestTempFileHandle,
    native: &mut NativeState,
    disk: &mut Disk,
    input: NativeChain,
) -> Result<PoolChain, RequestTempFileError> {
    let begun = handle.append(&request(native), native, ChainRef { chain: Some(&input) })?;
    finish(begun, handle, native, disk, &input)
}

fn append_buffer(
    handle: &mut RequestTempFileHandle,
    native: &mut NativeState,
    disk: &mut Disk,
    input: NativeBuffer,
) -> Result<PoolChain, RequestTempFileError> {
    let begun = handle.append_buffer(&request(native), native, &input, input.flags)?;
    finish(begun, handle, native, disk, &chain(vec![input]))
}

fn range(chain: &PoolChain, index: usize) -> (i64, i64) {
    let view = chain.buffers[index].file().unwrap().unwrap();
    (view.start(), view.end())
}

#[test]
fn temp_file_writer_rejects_missing_pool_configuration_path_and_log() {
    let mut native = fixture();
    native.requests.get_mut(&RAW).unwrap().pool = 0;
    assert_eq!(
        request(&native).temp_file(&mut native).err(),
        Some(RequestTempFileError::Request(RequestError::MissingPool))
    );

    let mut native = fixture();
    native.requests.get_mut(&RAW).unwrap().loc_conf = Pointer::Null;
    assert_eq!(
        request(&native).temp_file(&mut native).err(),
        Some(RequestTempFileError::MissingCoreLocationConfiguration)
    );

    let mut native = fixture();
    native.requests.get_mut(&RAW).unwrap().core_location =
        Some(CoreLocation { client_body_temp_path: 0 });
    assert_eq!(
        request(&native).temp_file(&mut native).err(),
        Some(RequestTempFileError::MissingTempPath)
    );

    let mut native = fixture();
    native.requests.get_mut(&RAW).unwrap().connection = Pointer::To(NativeConnection {
        log: Pointer::Null,
        sent: 0,
        data: RAW,
        write: Pointer::Null,
    });
    assert_eq!(
        request(&native).temp_file(&mut native).err(),
        Some(RequestTempFileError::MissingLog)
    );

    let mut native = fixture();
    native.core_module.type_ = 0;
    assert_eq!(
        request(&native).temp_file(&mut native).err(),
        Some(RequestTempFileError::Configuration(HttpConfigError::WrongModuleType))
    );
}

#[test]
fn temp_file_writer_rejects_a_misaligned_path_and_a_missing_owner() {
    let mut native = fixture();
    native.requests.get_mut(&RAW).unwrap().core_location =
        Some(CoreLocation { client_body_temp_path: PATH + 1 });
    assert_eq!(
        request(&native).temp_file_state(&mut native).err(),
        Some(RequestTempFileError::MisalignedTempPath)
    );

    let mut native = fixture();
    native.pools.insert(POOL, NativePool::new(blocks(0)));
    assert_eq!(
        request(&native).temp_file_state(&mut native).err(),
        Some(RequestTempFileError::Owner(RequestContextError::Allocation))
    );
}

#[test]
fn temp_file_writer_reuses_stable_metadata_with_clean_pool_cleanup() {
    let mut native = fixture();
    let mut disk = Disk::new();
    let flags = BufferFlags { flush: true, last_in_chain: true, ..BufferFlags::default() };
    let mut writer = request(&native).temp_file(&mut native).unwrap();
    assert!(writer.state.temp_file.is_none());

    let input = chain(vec![memory(b"body", flags)]);
    let begun = writer.append(ChainRef { chain: Some(&input) }).unwrap();
    let output = finish(begun, &mut writer.state, &mut native, &mut disk, &input).unwrap();
    let temp = writer.state.temp_file.unwrap();
    assert_ne!(temp.fd, NGX_INVALID_FILE);
    assert_eq!(temp.offset, 4);
    assert_eq!(temp.access, 0o600);
    assert!(temp.clean);
    assert_eq!(temp.log_level, NGX_LOG_WARN);
    assert_eq!(temp.warning(), "an HTTP body is buffered to a temporary file");
    assert_eq!((temp.path, temp.log, temp.pool), (PATH, LOG, POOL));

    assert_eq!(output.buffers.len(), 1);
    assert_eq!(output.buffers[0].flags(), flags);
    assert_eq!(range(&output, 0), (0, 4));
    assert_eq!(output.buffers[0].file().unwrap().unwrap().file_ptr(), temp.file);
    assert_eq!(disk.bytes, b"body");
    assert_eq!(native.pool(POOL).files, vec![FileCleanup { fd: temp.fd, armed: true }]);
}

#[test]
fn temp_file_writer_keeps_zero_and_multiple_append_offsets() {
    let mut native = fixture();
    let mut disk = Disk::new();
    let zero_flags = BufferFlags { sync: true, ..BufferFlags::default() };
    let second_flags = BufferFlags { flush: true, last_buf: true, ..BufferFlags::default() };
    let mut writer = request(&native).temp_file(&mut native).unwrap();

    let empty = NativeBuffer {
        memory: Some(MemoryRange { bytes: vec![0], pos: 0, last: 0 }),
        file: None,
        flags: zero_flags,
    };
    let empty_output =
        append(&mut writer.state, &mut native, &mut disk, chain(vec![empty])).unwrap();
    assert!(writer.state.temp_file.is_none());
    assert_eq!(empty_output.buffers[0].flags(), zero_flags);
    assert!(matches!(empty_output.buffers[0].kind(), Ok(BufferView::Control(_))));

    let first = chain(vec![memory(b"one", BufferFlags::default())]);
    let first_output = append(&mut writer.state, &mut native, &mut disk, first).unwrap();
    let second = chain(vec![memory(b"two", second_flags)]);
    let second_output = append(&mut writer.state, &mut native, &mut disk, second).unwrap();
    assert_eq!(writer.state.temp_file.unwrap().offset, 6);
    assert_eq!(range(&first_output, 0).0, 0);
    assert_eq!(range(&second_output, 0), (3, 6));
    assert_eq!(second_output.buffers[0].flags(), second_flags);
    assert_eq!(disk.bytes, b"onetwo");
}

#[test]
fn temp_file_state_reuses_one_pool_owned_handle_across_callback_scopes() {
    let mut native = fixture();
    let mut disk = Disk::new();
    let mut state = request(&native).temp_file_state(&mut native).unwrap();
    let input = memory(b"one", BufferFlags::default());
    let first = append_buffer(&mut state, &mut native, &mut disk, input).unwrap();
    let input = memory(b"two", BufferFlags::default());
    let second = append_buffer(&mut state, &mut native, &mut disk, input).unwrap();
    assert_eq!(range(&first, 0), (0, 3));
    assert_eq!(range(&second, 0), (3, 6));
    assert_eq!(state.temp_file.unwrap().offset, 6);
    assert_eq!(disk.bytes, b"onetwo");
}

#[test]
fn temp_file_state_release_closes_and_disarms_the_pool_cleanup() {
    let mut native = fixture();
    let mut disk = Disk::new();
    let mut state = request(&native).temp_file_state(&mut native).unwrap();
    let input = memory(b"body", BufferFlags::default());
    append_buffer(&mut state, &mut native, &mut disk, input).unwrap();
    let temp_file = state.temp_file.unwrap();
    let fd = temp_file.fd;
    assert_ne!(fd, NGX_INVALID_FILE);
    native.pools.get_mut(&POOL).unwrap().files.push(FileCleanup { fd: fd + 1, armed: true });

    let released = state.release(&request(&native), &mut native).unwrap().unwrap();
    assert_eq!(released.fd, fd);
    assert_eq!(released.temp_file.fd, NGX_INVALID_FILE);
    assert_eq!(released.temp_file, NativeTempFile { fd: NGX_INVALID_FILE, ..temp_file });
    assert!(native.pool(POOL).files.iter().all(|file| file.fd != fd || !file.armed));
    assert_eq!(
        native.pool(POOL).files,
        vec![FileCleanup { fd, armed: false }, FileCleanup { fd: fd + 1, armed: true }]
    );
}

#[test]
fn temp_file_state_release_reports_a_missing_pool_cleanup() {
    let mut native = fixture();
    let mut disk = Disk::new();
    let mut state = request(&native).temp_file_state(&mut native).unwrap();
    let input = memory(b"body", BufferFlags::default());
    append_buffer(&mut state, &mut native, &mut disk, input).unwrap();
    native.pools.get_mut(&POOL).unwrap().files[0].armed = false;
    let before = native.pool(POOL).files.clone();
    assert_eq!(
        state.release(&request(&native), &mut native),
        Err(RequestTempFileError::MissingCleanup)
    );
    assert_eq!(native.pool(POOL).files, before);
}

#[test]
fn temp_file_state_release_without_a_created_file_is_a_noop() {
    let mut native = fixture();
    let state = request(&native).temp_file_state(&mut native).unwrap();
    assert_eq!(state.release(&request(&native), &mut native), Ok(None));
}

#[test]
fn temp_file_state_copies_a_short_buffer_reborrow() {
    let mut native = fixture();
    let mut disk = Disk::new();
    let mut state = request(&native).temp_file_state(&mut native).unwrap();
    let input = memory(b"body", BufferFlags::default());
    let output = append_buffer(&mut state, &mut native, &mut disk, input).unwrap();
    assert_eq!(range(&output, 0), (0, 4));
}

#[test]
fn temp_file_state_rejects_a_different_request() {
    let mut native = fixture();
    let mut state = request(&native).temp_file_state(&mut native).unwrap();
    let mut other = zeroed_request();
    other.main = OTHER;
    other.parent = OTHER;
    native.requests.insert(OTHER, other);
    let other = RequestRefMut::from_raw(&native, OTHER).unwrap();
    let input = memory(b"body", BufferFlags::default());
    assert_eq!(
        state.append_buffer(&other, &native, &input, input.flags).err(),
        Some(RequestTempFileError::ForeignRequest)
    );
    assert!(state.temp_file.is_none());
}

#[test]
fn temp_file_handle_rejects_stale_generation_before_pool_state_access() {
    let mut native = fixture();
    let mut state = request(&native).temp_file_state(&mut native).unwrap();
    advance_request_generation(&mut native, RAW);
    let input = control(BufferFlags::default());
    assert_eq!(
        state.append_buffer(&request(&native), &native, &input, input.flags).err(),
        Some(RequestTempFileError::ForeignRequest)
    );
}

#[test]
fn temp_file_handle_rejects_replaced_owner_at_the_same_request_addresses() {
    let mut native = fixture();
    let mut state = request(&native).temp_file_state(&mut native).unwrap();
    let original_owner = native.pool(POOL).registry.as_ref().unwrap().owner;
    remove_request_context_registry(&mut native, POOL, RAW);
    assert_eq!(get_or_create_request_context_registry(&mut native, POOL, RAW), Ok(true));
    assert_ne!(native.pool(POOL).registry.as_ref().unwrap().owner, original_owner);
    assert_eq!(state.request, RAW);
    assert_eq!(state.pool, POOL);
    let input = control(BufferFlags::default());
    assert_eq!(
        state.append_buffer(&request(&native), &native, &input, input.flags).err(),
        Some(RequestTempFileError::ForeignRequest)
    );
}

#[test]
fn temp_file_writer_copies_file_and_mixed_chain_segments_in_order() {
    let mut native = fixture();
    let mut disk = Disk::new();
    let memory_flags = BufferFlags { flush: true, ..BufferFlags::default() };
    let file_flags = BufferFlags { sync: true, ..BufferFlags::default() };
    let control_flags = BufferFlags { last_in_chain: true, ..BufferFlags::default() };
    let last_flags = BufferFlags { last_buf: true, ..BufferFlags::default() };
    let source = 0x4700;
    let input = chain(vec![
        memory(b"left", memory_flags),
        file(source, 7, 10, file_flags),
        control(control_flags),
        memory(b"right", last_flags),
    ]);
    let mut writer = request(&native).temp_file(&mut native).unwrap();
    let output = append(&mut writer.state, &mut native, &mut disk, input).unwrap();
    let temp = writer.state.temp_file.unwrap();
    assert_eq!(temp.offset, 9);
    assert_eq!(disk.bytes, b"leftright");

    assert_eq!(output.buffers.len(), 4);
    assert_eq!(output.buffers[0].flags(), memory_flags);
    assert_eq!(range(&output, 0), (0, 4));
    assert_eq!(output.buffers[0].file().unwrap().unwrap().file_ptr(), temp.file);
    assert_eq!(output.buffers[1].flags(), file_flags);
    assert_eq!(range(&output, 1), (7, 10));
    assert_eq!(output.buffers[1].file().unwrap().unwrap().file_ptr(), source);
    assert_eq!(output.buffers[2].flags(), control_flags);
    assert!(matches!(output.buffers[2].kind(), Ok(BufferView::Control(_))));
    assert_eq!(output.buffers[3].flags(), last_flags);
    assert_eq!(range(&output, 3), (4, 9));
    assert_eq!(output.buffers[3].file().unwrap().unwrap().file_ptr(), temp.file);
}

#[test]
fn temp_file_writer_copies_file_ranges_without_creating_a_temp_file() {
    let mut native = fixture();
    let mut disk = Disk::new();
    let flags = BufferFlags { sync: true, last_in_chain: true, ..BufferFlags::default() };
    let source = 0x4900;
    let mut writer = request(&native).temp_file(&mut native).unwrap();
    let input = chain(vec![file(source, 11, 16, flags)]);
    let output = append(&mut writer.state, &mut native, &mut disk, input).unwrap();
    assert!(writer.state.temp_file.is_none());
    assert_eq!(output.buffers[0].flags(), flags);
    assert_eq!(range(&output, 0), (11, 16));
    assert_eq!(output.buffers[0].file().unwrap().unwrap().file_ptr(), source);
}

#[test]
fn temp_file_writer_validates_all_input_before_writing() {
    let mut native = fixture();
    let mut writer = request(&native).temp_file(&mut native).unwrap();
    let input = chain(vec![
        memory(b"valid", BufferFlags::default()),
        file(0x4800, -1, 1, BufferFlags::default()),
    ]);
    assert_eq!(
        writer.append(ChainRef { chain: Some(&input) }).err(),
        Some(RequestTempFileError::Buffer(BufferError::InvalidFileRange))
    );
    assert!(writer.state.temp_file.is_none());
    let input = vec![Pointer::Null];
    assert_eq!(
        writer.append(ChainRef { chain: Some(&input) }).err(),
        Some(RequestTempFileError::Chain(ChainError::NullBuffer))
    );
}

#[test]
fn temp_file_writer_reports_numeric_short_open_and_write_failures() {
    assert_eq!(temp_file_range(-1, 0), Err(RequestTempFileError::NegativeOffset));
    assert_eq!(temp_file_range(i64::MAX, 1), Err(RequestTempFileError::OffsetOverflow));
    assert_eq!(temp_file_range(0, usize::MAX), Err(RequestTempFileError::LengthOverflow));
    assert_eq!(temp_file_range(3, 4), Ok((3, 7)));
    assert_eq!(
        check_temp_file_write(4, 3),
        Err(RequestTempFileError::ShortWrite { expected: 4, written: 3 })
    );
    assert_eq!(check_temp_file_write(4, -1), Err(RequestTempFileError::Write));
    assert_eq!(check_temp_file_write(4, 4), Ok(()));

    let mut native = fixture();
    let mut disk = Disk::new();
    disk.missing = true;
    let mut writer = request(&native).temp_file(&mut native).unwrap();
    let input = chain(vec![memory(b"body", BufferFlags::default())]);
    assert_eq!(
        append(&mut writer.state, &mut native, &mut disk, input).err(),
        Some(RequestTempFileError::Write)
    );
    assert_eq!(writer.state.temp_file.unwrap().fd, NGX_INVALID_FILE);

    let mut native = fixture();
    let mut disk = Disk::new();
    let mut writer = request(&native).temp_file(&mut native).unwrap();
    let input = chain(vec![memory(b"first", BufferFlags::default())]);
    append(&mut writer.state, &mut native, &mut disk, input).unwrap();
    let offset = writer.state.temp_file.unwrap().offset;
    let advanced_offset = offset + 2;
    let input = chain(vec![memory(b"second", BufferFlags::default())]);
    let mut begun = writer.append(ChainRef { chain: Some(&input) }).unwrap();
    assert_eq!(
        begun.step(&mut writer.state, &mut native),
        Ok(TempFileStep::Write { index: 0 })
    );
    let write =
        TempFileWrite { written: -1, end: advanced_offset, fd: NGX_INVALID_FILE - 1 };
    assert_eq!(
        begun.written(&mut writer.state, &mut native, write),
        Err(RequestTempFileError::Write)
    );
    assert_eq!(writer.state.temp_file.unwrap().offset, advanced_offset);
}

#[test]
fn temp_file_writer_refuses_an_answer_that_leaves_the_range() {
    let mut native = fixture();
    let mut writer = request(&native).temp_file(&mut native).unwrap();
    let input = chain(vec![memory(b"body", BufferFlags::default())]);
    for (written, end, error) in [
        (4, 5, RequestTempFileError::Write),
        (2, 2, RequestTempFileError::ShortWrite { expected: 4, written: 2 }),
        (4, -1, RequestTempFileError::Write),
    ] {
        let mut begun = writer.append(ChainRef { chain: Some(&input) }).unwrap();
        begun.step(&mut writer.state, &mut native).unwrap();
        let start = writer.state.temp_file.unwrap().offset;
        let end = if end < 0 { end } else { start + end };
        let write = TempFileWrite { written, end, fd: FD };
        assert_eq!(begun.written(&mut writer.state, &mut native, write), Err(error));
        let expected = if end < 0 { start } else { end };
        assert_eq!(writer.state.temp_file.unwrap().offset, expected);
    }
}

#[test]
fn temp_file_writer_allocation_failures_do_not_return_partial_output() {
    let mut reached_success = false;
    for successes in 0..32 {
        let mut native = fixture();
        native.pools.insert(POOL, NativePool::new(blocks(successes)));
        let mut disk = Disk::new();
        let input = chain(vec![memory(b"body", BufferFlags::default())]);
        let result = match request(&native).temp_file(&mut native) {
            Ok(mut writer) => append(&mut writer.state, &mut native, &mut disk, input),
            Err(error) => Err(error),
        };
        if result.is_ok() {
            reached_success = true;
            break;
        }
    }
    assert!(reached_success);
}

#[test]
fn temp_file_writer_skips_unpublished_memory_after_output_allocation_failure() {
    let mut observed_unpublished_write = false;
    for successes in 0..32 {
        let mut native = fixture();
        let mut disk = Disk::new();
        let mut writer = request(&native).temp_file(&mut native).unwrap();
        native.pools.get_mut(&POOL).unwrap().blocks = blocks(successes);
        let first = chain(vec![memory(b"first", BufferFlags::default())]);
        let failed = append(&mut writer.state, &mut native, &mut disk, first);
        native.pools.get_mut(&POOL).unwrap().blocks = blocks(64);

        let Some(temp) = writer.state.temp_file else {
            continue;
        };
        let start = temp.offset;
        if failed.is_ok() || start == 0 {
            continue;
        }
        let second = chain(vec![memory(b"second", BufferFlags::default())]);
        let output = append(&mut writer.state, &mut native, &mut disk, second).unwrap();
        assert_eq!(range(&output, 0), (start, start + 6));
        assert_eq!(disk.bytes, b"firstsecond");
        observed_unpublished_write = true;
        break;
    }
    assert!(observed_unpublished_write);
}
