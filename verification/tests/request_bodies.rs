use ngx_http::buffer::{
    BufferError, BufferFlags, BufferView, ChainError, ControlView, FileRange, MemoryRange,
    NativeBuffer, NativeChain, PoolBuffer,
};
use ngx_http::native::{NativePool, NativeRequest, NativeState, Pointer, NGX_HTTP_MODULE};
use ngx_http::request::body::{
    decimal_bytes, NativeBody, RequestBodyBuildError, RequestBodyError, RequestBodySize,
};
use ngx_http::request::header_slots::{HeaderSlot, NativeHeadersIn};
use ngx_http::request::headers::{HeaderBuildError, HeaderListError};
use ngx_http::request::view::RequestRefMut;

const REQUEST: usize = 0x1000;
const POOL: usize = 0x2000;
const FILE: usize = 0x3000;

fn pool(blocks: usize) -> NativePool {
    NativePool::new((1..=blocks).map(|number| number * 0x10).collect())
}

fn state() -> NativeState {
    let mut native = NativeState::new(1, 1);
    native.pools.insert(POOL, pool(400));
    let mut request = NativeRequest::zeroed();
    request.signature = NGX_HTTP_MODULE;
    request.main = REQUEST;
    request.pool = POOL;
    native.requests.insert(REQUEST, request);
    native
}

fn request(native: &NativeState) -> RequestRefMut {
    RequestRefMut::from_raw(native, REQUEST).unwrap()
}

fn raw(native: &mut NativeState) -> &mut NativeRequest {
    native.requests.get_mut(&REQUEST).unwrap()
}

fn flags() -> BufferFlags {
    BufferFlags::default()
}

fn fields(native: &NativeState) -> Vec<(Vec<u8>, Vec<u8>)> {
    let list = request(native).headers_in(native).unwrap();
    let mut iter = list.iter();
    let mut fields = Vec::new();
    while let Some(header) = iter.next() {
        assert!(header.is_enabled());
        fields.push((header.key().to_vec(), header.value().to_vec()));
    }
    fields
}

fn field(key: &[u8], value: &[u8]) -> (Vec<u8>, Vec<u8>) {
    (key.to_vec(), value.to_vec())
}

fn add_headers(native: &mut NativeState, capacity: usize, headers: &[(&[u8], &[u8])]) {
    let mut builder = request(native).headers_in_builder(native, capacity).unwrap();
    for (key, value) in headers {
        builder.add(native, key, value).unwrap();
    }
    builder.commit(native);
}

fn content_length_value(headers: &NativeHeadersIn) -> &[u8] {
    let at = headers.slots.get(HeaderSlot::ContentLength)[0];
    headers.headers.get(at).value.as_bytes()
}

fn first_bytes(native: &NativeState) -> Vec<u8> {
    let body = request(native).request_body(native).unwrap().unwrap();
    body.chain().unwrap().get(0).unwrap().bytes().unwrap().unwrap().to_vec()
}

fn body_size(native: &NativeState) -> RequestBodySize {
    request(native).request_body(native).unwrap().unwrap().size().unwrap()
}

fn old_body() -> Pointer<NativeBody> {
    Pointer::To(NativeBody { bufs: Pointer::Null, temp_file: true })
}

fn has_temp_file(native: &NativeState) -> bool {
    match &native.request(REQUEST).request_body {
        Pointer::To(body) => body.temp_file,
        _ => panic!("no body"),
    }
}

#[test]
fn request_body_builder_copies_bytes_and_replaces_framing() {
    let mut native = state();
    add_headers(
        &mut native,
        1,
        &[
            (b"Host", b"example.test"),
            (b"Content-Length", b"99"),
            (b"Transfer-Encoding", b"chunked"),
        ],
    );
    {
        let request = raw(&mut native);
        request.headers_in.content_length_n = 99;
        request.headers_in.chunked = true;
        request.request_body = old_body();
    }
    let mut bytes = *b"new";
    let mut body = request(&native).request_body_builder(&native).unwrap();
    body.append_copy(&mut native, &bytes).unwrap();
    assert_eq!(body.body.chain.buffers[0].flags, flags());
    assert!(body.body.chain.buffers[0].file.is_none());
    bytes.fill(b'!');
    body.commit(&mut native).unwrap();

    assert!(!has_temp_file(&native));
    let headers = &native.request(REQUEST).headers_in;
    assert_eq!(headers.content_length_n, 3);
    assert!(!headers.chunked);
    assert!(headers.transfer_encoding.is_empty());
    assert_eq!(content_length_value(headers), b"3");
    assert_eq!(body_size(&native).bytes(), 3);
    assert_eq!(first_bytes(&native), b"new");
    assert_eq!(
        fields(&native),
        vec![field(b"Host", b"example.test"), field(b"Content-Length", b"3")]
    );
}

fn assert_slots_are_live(native: &NativeState, expect_multiple_parts: bool) {
    let headers = &native.request(REQUEST).headers_in;
    let places = headers.headers.places();
    assert_eq!(headers.headers.parts.len() > 1, expect_multiple_parts);
    let cookies = headers.slots.get(HeaderSlot::Cookie);
    assert_eq!(cookies.len(), 2);
    for at in [
        headers.slots.get(HeaderSlot::Host)[0],
        headers.slots.get(HeaderSlot::UserAgent)[0],
        headers.slots.get(HeaderSlot::Authorization)[0],
        cookies[0],
        cookies[1],
        headers.slots.get(HeaderSlot::ContentLength)[0],
    ] {
        assert!(places.contains(&at));
    }
}

#[test]
fn request_body_framing_keeps_builtin_slots_in_the_live_header_list() {
    for capacity in [10, 2] {
        let mut native = state();
        add_headers(
            &mut native,
            capacity,
            &[
                (b"Host", b"example.test"),
                (b"User-Agent", b"agent"),
                (b"Authorization", b"scheme token"),
                (b"Cookie", b"first=1"),
                (b"Cookie", b"second=2"),
                (b"Content-Length", b"99"),
                (b"Transfer-Encoding", b"chunked"),
            ],
        );
        let mut body = request(&native).request_body_builder(&native).unwrap();
        body.append_copy(&mut native, b"body").unwrap();
        body.commit(&mut native).unwrap();
        assert_slots_are_live(&native, capacity == 2);

        request(&native).clear_request_body(&mut native).unwrap();
        assert_slots_are_live(&native, capacity == 2);
    }
}

fn combined_headers(native: &mut NativeState) -> ngx_http::request::header_builders::HttpHeadersInBuilder {
    let mut headers = request(native).headers_in_builder(native, 1).unwrap();
    headers.add(native, b"Host", b"example.test").unwrap();
    headers.add(native, b"X-Keep", b"kept").unwrap();
    headers.add(native, b"Content-Length", b"99").unwrap();
    headers.add(native, b"Transfer-Encoding", b"chunked").unwrap();
    headers
}

#[test]
fn input_header_builder_publishes_replacement_body_and_framing_together() {
    let mut native = state();
    raw(&mut native).request_body = old_body();
    let headers = combined_headers(&mut native);
    let mut body = headers.request_body_candidate().unwrap();
    body.append_copy(&mut native, b"replacement").unwrap();
    headers.commit_with_body(&mut native, body).unwrap();

    assert!(!has_temp_file(&native));
    let headers = &native.request(REQUEST).headers_in;
    assert_eq!(headers.count, 5);
    assert_eq!(headers.content_length_n, 11);
    assert!(!headers.chunked);
    assert!(headers.transfer_encoding.is_empty());
    assert_eq!(content_length_value(headers), b"11");
    assert_eq!(body_size(&native).bytes(), 11);
    assert_eq!(first_bytes(&native), b"replacement");
    assert_eq!(
        fields(&native),
        vec![
            field(b"Host", b"example.test"),
            field(b"X-Keep", b"kept"),
            field(b"Content-Length", b"11"),
        ]
    );
    let at = headers.slots.get(HeaderSlot::ContentLength)[0];
    let content_length = headers.headers.get(at);
    assert_eq!(
        &content_length.lowcase_key.as_ref().unwrap()[..content_length.key.len],
        b"content-length"
    );
    assert_ne!(content_length.hash, 0);
    assert_eq!(content_length.key.data.as_ref().unwrap()[content_length.key.len], 0);
    assert_eq!(content_length.value.data.as_ref().unwrap()[content_length.value.len], 0);
}

#[test]
fn input_header_builder_clears_body_and_replaces_framing_together() {
    let mut native = state();
    raw(&mut native).request_body = old_body();
    let headers = combined_headers(&mut native);
    headers.commit_without_body(&mut native).unwrap();

    let request = native.request(REQUEST);
    assert!(matches!(request.request_body, Pointer::Null));
    assert_eq!(request.headers_in.count, 5);
    assert_eq!(request.headers_in.content_length_n, 0);
    assert!(!request.headers_in.chunked);
    assert!(request.headers_in.transfer_encoding.is_empty());
    assert_eq!(
        fields(&native),
        vec![
            field(b"Host", b"example.test"),
            field(b"X-Keep", b"kept"),
            field(b"Content-Length", b"0"),
        ]
    );
}

#[test]
fn input_header_builder_publishes_body_with_an_empty_header_list() {
    let mut native = state();
    let headers = request(&native).headers_in_builder(&mut native, 1).unwrap();
    let mut body = headers.request_body_candidate().unwrap();
    body.append_copy(&mut native, b"body").unwrap();
    headers.commit_with_body(&mut native, body).unwrap();

    let headers = &native.request(REQUEST).headers_in;
    assert_eq!(headers.count, 1);
    assert_eq!(headers.content_length_n, 4);
    assert!(!headers.chunked);
    assert!(headers.transfer_encoding.is_empty());
    let list = request(&native).headers_in(&native).unwrap();
    let content_length = list.iter().next().unwrap();
    assert_eq!(content_length.key(), b"Content-Length");
    assert_eq!(content_length.value(), b"4");
    assert_eq!(content_length.lowercase_key(), Some(b"content-length".as_slice()));
    assert_ne!(content_length.hash(), 0);
    assert_eq!(body_size(&native).bytes(), 4);
    assert_eq!(first_bytes(&native), b"body");
}

fn framed_request() -> NativeState {
    let mut native = state();
    add_headers(
        &mut native,
        1,
        &[
            (b"Host", b"example.test"),
            (b"Content-Length", b"7"),
            (b"Transfer-Encoding", b"chunked"),
        ],
    );
    let request = raw(&mut native);
    request.headers_in.content_length_n = 7;
    request.headers_in.chunked = true;
    request.request_body = old_body();
    native
}

/// What a failed replacement has to leave alone.
fn assert_still_framed(native: &NativeState, reference: &NativeState) {
    assert!(has_temp_file(native));
    let headers = &native.request(REQUEST).headers_in;
    let before = &reference.request(REQUEST).headers_in;
    assert_eq!(headers.headers.parts.len(), before.headers.parts.len());
    assert_eq!(headers.headers.last, before.headers.last);
    for (part, old) in headers.headers.parts.iter().zip(before.headers.parts.iter()) {
        assert_eq!(part.nelts, old.nelts);
        assert_eq!(part.next, old.next);
        let hashes = |part: &ngx_http::request::headers::NativeListPart| {
            part.elts.as_ref().unwrap().iter().map(|entry| entry.hash).collect::<Vec<_>>()
        };
        assert_eq!(hashes(part), hashes(old));
    }
    for slot in [HeaderSlot::Host, HeaderSlot::ContentLength] {
        assert_eq!(headers.slots.get(slot), before.slots.get(slot));
    }
    assert_eq!(headers.transfer_encoding, before.transfer_encoding);
    assert_eq!(headers.count, before.count);
    assert_eq!(headers.content_length_n, before.content_length_n);
    assert_eq!(headers.chunked, before.chunked);
}

fn is_allocation_failure(error: RequestBodyBuildError) -> bool {
    matches!(
        error,
        RequestBodyBuildError::HeaderBuild(HeaderBuildError::Allocation)
            | RequestBodyBuildError::Buffer(BufferError::Allocation)
            | RequestBodyBuildError::Chain(ChainError::Allocation)
            | RequestBodyBuildError::Allocation
    )
}

#[test]
fn input_header_builder_keeps_live_request_when_combined_body_allocation_fails() {
    let reference = framed_request();
    let mut reached_success = false;

    for successes in 0..64 {
        let mut native = framed_request();
        native.pools.insert(POOL, pool(successes));
        let mut build = || -> Result<(), RequestBodyBuildError> {
            let mut headers = request(&native).headers_in_builder(&mut native, 1)?;
            headers.add(&mut native, b"Host", b"replacement.test")?;
            headers.add(&mut native, b"X-Replaced", b"yes")?;
            let mut body = headers.request_body_candidate()?;
            body.append_copy(&mut native, b"replacement")?;
            headers.commit_with_body(&mut native, body)
        };
        let result = build();
        if result.is_ok() {
            reached_success = true;
            break;
        }
        assert!(is_allocation_failure(result.err().unwrap()));
        assert_still_framed(&native, &reference);
    }

    assert!(reached_success);
}

fn memory(bytes: &[u8]) -> NativeBuffer {
    NativeBuffer {
        memory: Some(MemoryRange { bytes: bytes.to_vec(), pos: 0, last: bytes.len() }),
        file: None,
        flags: flags(),
    }
}

fn file(pos: i64, last: i64) -> NativeBuffer {
    NativeBuffer { memory: None, file: Some(FileRange { file: FILE, pos, last }), flags: flags() }
}

fn control(flags: BufferFlags) -> NativeBuffer {
    NativeBuffer { memory: None, file: None, flags }
}

fn with_chain(links: NativeChain) -> NativeState {
    let mut native = state();
    raw(&mut native).request_body =
        Pointer::To(NativeBody { bufs: Pointer::To(links), temp_file: false });
    native
}

#[test]
fn request_body_views_cover_absent_empty_and_control_chains() {
    let native = state();
    assert!(request(&native).request_body(&native).unwrap().is_none());

    let mut native = state();
    raw(&mut native).request_body =
        Pointer::To(NativeBody { bufs: Pointer::Null, temp_file: false });
    let body = request(&native).request_body(&native).unwrap().unwrap();
    assert_eq!(body.chain().unwrap().len(), 0);
    assert_eq!(body.size().unwrap(), RequestBodySize { bytes: 0, saturated: false });

    let native = with_chain(vec![Pointer::To(control(BufferFlags { flush: true, ..flags() }))]);
    let body = request(&native).view().request_body(&native).unwrap().unwrap();
    assert_eq!(body.size().unwrap(), RequestBodySize { bytes: 0, saturated: false });
    assert!(matches!(
        body.chain().unwrap().get(0).unwrap().kind(),
        Ok(BufferView::Control(ControlView { .. }))
    ));
}

#[test]
fn request_body_views_cover_memory_file_and_mixed_chains() {
    let native = with_chain(vec![
        Pointer::To(memory(b"abc")),
        Pointer::To(file(7, 12)),
        Pointer::To(control(BufferFlags { sync: true, ..flags() })),
    ]);
    let body = request(&native).request_body(&native).unwrap().unwrap();
    assert_eq!(body.size().unwrap(), RequestBodySize { bytes: 8, saturated: false });

    let chain = body.chain().unwrap();
    assert!(matches!(chain.get(0).unwrap().kind(), Ok(BufferView::Memory(b"abc"))));
    assert!(matches!(
        chain.get(1).unwrap().kind(),
        Ok(BufferView::File(view)) if view.start() == 7 && view.end() == 12
    ));
    assert!(matches!(
        chain.get(2).unwrap().kind(),
        Ok(BufferView::Control(ControlView { .. }))
    ));
    assert_eq!(chain.len(), 3);
}

fn size_of_chain(links: NativeChain) -> Result<RequestBodySize, RequestBodyError> {
    let native = with_chain(links);
    request(&native).request_body(&native).unwrap().unwrap().size()
}

#[test]
fn request_body_size_rejects_invalid_chains_and_saturates() {
    assert!(matches!(
        size_of_chain(vec![Pointer::Null]),
        Err(RequestBodyError::Chain(ChainError::NullBuffer))
    ));
    assert!(matches!(
        size_of_chain(vec![Pointer::To(file(-1, 0))]),
        Err(RequestBodyError::Chain(ChainError::Buffer(BufferError::InvalidFileRange)))
    ));
    let backward = NativeBuffer {
        memory: Some(MemoryRange { bytes: b"bad".to_vec(), pos: 3, last: 0 }),
        file: None,
        flags: flags(),
    };
    assert!(matches!(
        size_of_chain(vec![Pointer::To(backward)]),
        Err(RequestBodyError::Chain(ChainError::Buffer(BufferError::InvalidMemoryRange)))
    ));
    let huge = || Pointer::To(file(0, i64::MAX));
    assert_eq!(
        size_of_chain(vec![huge(), huge(), huge()]),
        Ok(RequestBodySize { bytes: usize::MAX, saturated: true })
    );
    assert!(matches!(
        size_of_chain(vec![huge(), huge(), huge(), Pointer::Null]),
        Err(RequestBodyError::Chain(ChainError::NullBuffer))
    ));
    assert!(matches!(
        size_of_chain(vec![Pointer::Misaligned]),
        Err(RequestBodyError::Chain(ChainError::MisalignedBuffer))
    ));

    let mut native = state();
    raw(&mut native).request_body = Pointer::Misaligned;
    assert!(matches!(
        request(&native).request_body(&native),
        Err(RequestBodyError::MisalignedBody)
    ));
    assert!(RequestBodySize { bytes: usize::MAX, saturated: true }.is_saturated());
}

#[test]
fn request_body_builder_publishes_empty_body_and_clear_removes_old_body_state() {
    let mut native = state();
    add_headers(&mut native, 1, &[]);
    raw(&mut native).request_body = Pointer::To(NativeBody {
        bufs: Pointer::To(vec![Pointer::To(control(flags()))]),
        temp_file: true,
    });

    request(&native).clear_request_body(&mut native).unwrap();
    let cleared = native.request(REQUEST);
    assert!(matches!(cleared.request_body, Pointer::Null));
    assert_eq!(cleared.headers_in.content_length_n, 0);
    assert!(!cleared.headers_in.chunked);
    assert!(cleared.headers_in.transfer_encoding.is_empty());

    request(&native).request_body_builder(&native).unwrap().commit(&mut native).unwrap();
    match &native.request(REQUEST).request_body {
        Pointer::To(body) => {
            assert!(matches!(body.bufs, Pointer::Null));
            assert!(!body.temp_file);
        }
        _ => panic!("no body"),
    }
    assert_eq!(native.request(REQUEST).headers_in.content_length_n, 0);
}

#[test]
fn clearing_the_body_again_lists_the_same_headers() {
    let mut native = state();
    add_headers(
        &mut native,
        1,
        &[
            (b"Host", b"example.test"),
            (b"Transfer-Encoding", b"chunked"),
            (b"Content-Length", b"7"),
            (b"X-Keep", b"kept"),
        ],
    );
    let expected =
        vec![field(b"Host", b"example.test"), field(b"X-Keep", b"kept"), field(b"Content-Length", b"0")];
    let count = native.request(REQUEST).headers_in.count;
    for step in 1..=3 {
        request(&native).clear_request_body(&mut native).unwrap();
        assert_eq!(fields(&native), expected);
        let headers = &native.request(REQUEST).headers_in;
        assert_eq!(headers.count, count + step);
        assert_eq!(headers.content_length_n, 0);
        assert_eq!(content_length_value(headers), b"0");
        assert_eq!(headers.headers.last, headers.headers.parts.len() - 1);
    }
}

#[test]
fn malformed_header_lists_refuse_a_body() {
    let mut native = state();
    add_headers(&mut native, 1, &[(b"Host", b"example.test"), (b"X-Keep", b"kept")]);
    raw(&mut native).headers_in.headers.last = 0;
    let refused = Err(RequestBodyBuildError::HeaderList(HeaderListError::InvalidList));
    assert_eq!(request(&native).clear_request_body(&mut native), refused);
    let mut body = request(&native).request_body_builder(&native).unwrap();
    body.append_copy(&mut native, b"body").unwrap();
    assert_eq!(body.commit(&mut native), refused);

    let mut native = state();
    assert_eq!(request(&native).clear_request_body(&mut native), refused);
    assert!(matches!(native.request(REQUEST).request_body, Pointer::Null));
}

#[test]
fn request_body_builder_keeps_file_metadata_and_control_links() {
    let mut native = state();
    add_headers(&mut native, 1, &[]);
    let mut body = request(&native).request_body_builder(&native).unwrap();
    body.append_copy(&mut native, b"ab").unwrap();
    body.append(&mut native, PoolBuffer { pool: POOL, buffer: file(3, 6) }).unwrap();
    body.append_control(&mut native, BufferFlags { sync: true, ..flags() }).unwrap();
    body.commit(&mut native).unwrap();

    assert_eq!(body_size(&native), RequestBodySize { bytes: 5, saturated: false });
    let body = request(&native).request_body(&native).unwrap().unwrap();
    let chain = body.chain().unwrap();
    assert_eq!(chain.get(0).unwrap().bytes(), Ok(Some(b"ab".as_slice())));
    match chain.get(1).unwrap().kind().unwrap() {
        BufferView::File(view) => {
            assert_eq!(view.start(), 3);
            assert_eq!(view.end(), 6);
            assert_eq!(view.file_ptr(), FILE);
        }
        other => panic!("expected file buffer, got {other:?}"),
    }
    assert!(matches!(
        chain.get(2).unwrap().kind(),
        Ok(BufferView::Control(ControlView { .. }))
    ));
    assert_eq!(chain.len(), 3);
}

#[test]
fn request_body_builder_rejects_a_buffer_from_another_pool_before_publication() {
    let mut native = state();
    add_headers(&mut native, 1, &[]);
    let mut body = request(&native).request_body_builder(&native).unwrap();
    assert_eq!(
        body.append(&mut native, PoolBuffer { pool: POOL + 8, buffer: memory(b"foreign") }),
        Err(RequestBodyBuildError::Chain(ChainError::Buffer(BufferError::ForeignPool)))
    );
    assert!(matches!(native.request(REQUEST).request_body, Pointer::Null));
}

#[test]
fn request_body_builder_keeps_live_body_and_framing_when_each_allocation_fails() {
    let reference = framed_request();
    let mut reached_success = false;

    for successes in 0..64 {
        let mut native = framed_request();
        native.pools.insert(POOL, pool(successes));
        let mut build = || -> Result<(), RequestBodyBuildError> {
            let mut body = request(&native).request_body_builder(&native)?;
            body.append_copy(&mut native, b"replacement")?;
            body.commit(&mut native)
        };
        let result = build();
        if result.is_ok() {
            reached_success = true;
            break;
        }
        assert!(is_allocation_failure(result.err().unwrap()));
        assert_still_framed(&native, &reference);
    }

    assert!(reached_success);
}

#[test]
fn body_lengths_are_written_in_decimal() {
    assert_eq!(decimal_bytes(0), b"0");
    assert_eq!(decimal_bytes(7), b"7");
    assert_eq!(decimal_bytes(10), b"10");
    assert_eq!(decimal_bytes(usize::MAX), usize::MAX.to_string().into_bytes());
}
