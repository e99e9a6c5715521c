use ngx_http::buffer::{BufferFlags, PoolBuffer, PoolChain};
use ngx_http::native::{NativePool, NativeRequest, NativeState, NativeString, NGX_HTTP_MODULE};
use ngx_http::request::header_list::{append_pool_header, create_header_list, ngx_hash_strlow};
use ngx_http::request::header_slots::{HeaderSlot, HeaderSlots};
use ngx_http::request::headers::{
    EntryAt, HeaderBuildError, HttpHeaderList, NativeList, HEADER_ENTRY_SIZE,
};
use ngx_http::request::view::{RequestError, RequestRefMut};

const REQUEST: usize = 0x1000;
const POOL: usize = 0x2000;

fn pool(blocks: usize) -> NativePool {
    NativePool::new((1..=blocks).map(|number| number * 0x10).collect())
}

/// A state with one request whose pool hands out many blocks.
fn state() -> NativeState {
    let mut native = NativeState::new(1, 1);
    native.pools.insert(POOL, pool(400));
    let mut request = NativeRequest::zeroed();
    request.signature = NGX_HTTP_MODULE;
    request.main = REQUEST;
    request.pool = POOL;
    native.requests.insert(REQUEST, request);
    native
}

fn request(native: &NativeState) -> RequestRefMut {
    RequestRefMut::from_raw(native, REQUEST).unwrap()
}

fn raw(native: &mut NativeState) -> &mut NativeRequest {
    native.requests.get_mut(&REQUEST).unwrap()
}

fn fields(list: &HttpHeaderList) -> Vec<(Vec<u8>, Vec<u8>)> {
    let mut iter = list.iter();
    let mut fields = Vec::new();
    while let Some(header) = iter.next() {
        fields.push((header.key().to_vec(), header.value().to_vec()));
    }
    fields
}

fn field(key: &[u8], value: &[u8]) -> (Vec<u8>, Vec<u8>) {
    (key.to_vec(), value.to_vec())
}

fn bytes(value: &NativeString) -> &[u8] {
    value.as_bytes()
}

/// The value that a slot leads to.
fn slot_value<'a>(slots: &HeaderSlots, list: &'a NativeList, slot: HeaderSlot) -> Option<&'a [u8]> {
    slots.get(slot).first().map(|at| bytes(&list.get(*at).value))
}

/// Puts a fresh header list of one entry per part into the request.
fn empty_list(native: &mut NativeState, input: bool) {
    let list = create_header_list(native.pools.get_mut(&POOL).unwrap(), 1).unwrap();
    let request = raw(native);
    if input {
        request.headers_in.headers = list;
    } else {
        request.headers_out.headers = list;
    }
}

fn add_direct(
    native: &mut NativeState,
    input: bool,
    key: &str,
    value: &str,
) -> Result<(), RequestError> {
    let mut request = request(native);
    if input {
        request.add_header_in(native, key, value)
    } else {
        request.add_header_out(native, key, value)
    }
}

fn listed(native: &NativeState, input: bool) -> Vec<(Vec<u8>, Vec<u8>)> {
    let request = request(native);
    if input {
        fields(&request.headers_in(native).unwrap())
    } else {
        fields(&request.headers_out(native).unwrap())
    }
}

/// The entry count and the successor of each part, and the part that the last pointer leads to.
fn layout(native: &NativeState, input: bool) -> (Vec<(usize, Option<usize>)>, usize) {
    let request = native.request(REQUEST);
    let list = if input { &request.headers_in.headers } else { &request.headers_out.headers };
    (list.parts.iter().map(|part| (part.nelts, part.next)).collect(), list.last)
}

fn iterated(native: &NativeState, input: bool) -> usize {
    let request = request(native);
    let mut iter = if input {
        request.headers_in_iterator(native)
    } else {
        request.headers_out_iterator(native)
    };
    let mut count = 0;
    while iter.next().is_some() {
        count += 1;
    }
    count
}

#[test]
fn direct_header_additions_initialize_poisoned_entries() {
    for input in [true, false] {
        let mut native = state();
        empty_list(&mut native, input);
        let value = if input { "input" } else { "output" };
        assert_eq!(add_direct(&mut native, input, "X-Direct", value), Ok(()));
        assert_eq!(listed(&native, input), vec![field(b"X-Direct", value.as_bytes())]);
        assert_eq!(iterated(&native, input), 1);
    }
}

#[test]
fn direct_header_allocation_failures_preserve_the_readable_list() {
    for input in [true, false] {
        let mut reached_success = false;

        for successes in 0..7 {
            let mut native = state();
            empty_list(&mut native, input);
            add_direct(&mut native, input, "X-Existing", "old").unwrap();
            let original = layout(&native, input);
            assert_eq!(original, (vec![(1, None)], 0));
            native.pools.insert(POOL, pool(successes));

            let result = add_direct(&mut native, input, "X-Replacement", "new");
            if result.is_ok() {
                assert_eq!(layout(&native, input), (vec![(1, Some(1)), (1, None)], 1));
                assert_eq!(
                    listed(&native, input),
                    vec![field(b"X-Existing", b"old"), field(b"X-Replacement", b"new")]
                );
                assert_eq!(iterated(&native, input), 2);
                reached_success = true;
                break;
            }
            assert_eq!(result, Err(RequestError::Allocation));
            assert_eq!(layout(&native, input), original);
            assert_eq!(listed(&native, input), vec![field(b"X-Existing", b"old")]);
            assert_eq!(iterated(&native, input), 1);
        }

        assert!(reached_success);
    }
}

#[test]
fn input_header_builder_copies_bytes_binds_slots_and_keeps_duplicates() {
    let mut native = state();
    let source_key = [b'X', 0xff];
    let source_value = [0, 0xfe];
    let standard_headers: [(HeaderSlot, &[u8], &[u8]); 16] = [
        (HeaderSlot::Host, b"Host", b"example.test"),
        (HeaderSlot::ContentLength, b"Content-Length", b"7"),
        (HeaderSlot::ContentType, b"Content-Type", b"application/test"),
        (HeaderSlot::UserAgent, b"User-Agent", b"agent"),
        (HeaderSlot::Referer, b"Referer", b"https://example.test/"),
        (HeaderSlot::Authorization, b"Authorization", b"Basic token"),
        (HeaderSlot::ProxyAuthorization, b"Proxy-Authorization", b"Basic proxy"),
        (HeaderSlot::Cookie, b"Cookie", b"a=b"),
        (HeaderSlot::Expect, b"Expect", b"100-continue"),
        (HeaderSlot::Range, b"Range", b"bytes=0-1"),
        (HeaderSlot::IfModifiedSince, b"If-Modified-Since", b"Wed, 21 Oct 2015 07:28:00 GMT"),
        (HeaderSlot::IfUnmodifiedSince, b"If-Unmodified-Since", b"Wed, 21 Oct 2015 07:28:00 GMT"),
        (HeaderSlot::IfMatch, b"If-Match", b"one"),
        (HeaderSlot::IfNoneMatch, b"If-None-Match", b"two"),
        (HeaderSlot::IfRange, b"If-Range", b"three"),
        (HeaderSlot::ContentRange, b"Content-Range", b"bytes 0-1/2"),
    ];

    let mut headers = request(&native).headers_in_builder(&mut native, 1).unwrap();
    for (_, key, value) in standard_headers {
        headers.add(&mut native, key, value).unwrap();
    }
    headers.add(&mut native, &source_key, &source_value).unwrap();
    headers.add(&mut native, b"X-Duplicate", b"one").unwrap();
    headers.add(&mut native, b"X-Duplicate", b"two").unwrap();
    headers.commit(&mut native);

    let (expected_lowcase, expected_hash) = ngx_hash_strlow(&source_key);
    assert_eq!(expected_lowcase, vec![b'x', 0xff]);
    assert_eq!(expected_hash, 120 * 31 + 255);
    let view = request(&native);
    let list = view.headers_in(&native).unwrap();
    let mut iter = list.iter();
    let mut source = None;
    let mut duplicates = 0;
    while let Some(header) = iter.next() {
        if header.key() == source_key {
            source = Some(header);
        }
        if header.key() == b"X-Duplicate" {
            duplicates += 1;
        }
    }
    let source = source.unwrap();
    assert_eq!(source.value(), source_value);
    assert_eq!(source.lowercase_key(), Some(expected_lowcase.as_slice()));
    assert_eq!(source.hash(), expected_hash);
    assert_eq!(duplicates, 2);

    let headers = &native.request(REQUEST).headers_in;
    assert_eq!(headers.count, standard_headers.len() + 3);
    assert_eq!(bytes(&headers.server), b"example.test");
    for (slot, _, value) in standard_headers {
        assert_eq!(slot_value(&headers.slots, &headers.headers, slot), Some(value));
    }
    assert_eq!(headers.content_length_n, -1);
    assert_eq!(headers.keep_alive_n, -1);
}

#[test]
fn input_header_builder_terminates_nonempty_and_empty_native_storage() {
    let mut native = state();
    let mut headers = request(&native).headers_in_builder(&mut native, 2).unwrap();
    headers.add(&mut native, b"Host", b"example.test").unwrap();
    headers.add(&mut native, b"User-Agent", b"").unwrap();
    headers.commit(&mut native);

    let headers = &native.request(REQUEST).headers_in;
    for slot in [HeaderSlot::Host, HeaderSlot::UserAgent] {
        let header = headers.headers.get(headers.slots.get(slot)[0]);
        assert_eq!(header.key.data.as_ref().unwrap()[header.key.len], 0);
        assert_eq!(header.value.data.as_ref().unwrap()[header.value.len], 0);
    }
}

#[test]
fn output_header_builder_binds_slots_and_preserves_response_state() {
    let mut native = state();
    let content_type = b"application/test";
    {
        let out = &mut raw(&mut native).headers_out;
        out.status = 201;
        out.status_line = NativeString { len: 11, data: Some(b"201 Created".to_vec()) };
        out.content_length_n = 91;
        out.content_offset = 7;
        out.date_time = 11;
        out.last_modified_time = 13;
    }
    let standard_headers: [(HeaderSlot, &[u8], &[u8]); 14] = [
        (HeaderSlot::Server, b"Server", b"ngx"),
        (HeaderSlot::Date, b"Date", b"Wed, 21 Oct 2015 07:28:00 GMT"),
        (HeaderSlot::ContentEncoding, b"Content-Encoding", b"identity"),
        (HeaderSlot::Location, b"Location", b"/next"),
        (HeaderSlot::Refresh, b"Refresh", b"1"),
        (HeaderSlot::LastModified, b"Last-Modified", b"Wed, 21 Oct 2015 07:28:00 GMT"),
        (HeaderSlot::ContentRange, b"Content-Range", b"bytes 0-1/2"),
        (HeaderSlot::AcceptRanges, b"Accept-Ranges", b"bytes"),
        (HeaderSlot::WwwAuthenticate, b"WWW-Authenticate", b"Basic"),
        (HeaderSlot::ProxyAuthenticate, b"Proxy-Authenticate", b"Basic"),
        (HeaderSlot::Expires, b"Expires", b"0"),
        (HeaderSlot::Etag, b"ETag", b"tag"),
        (HeaderSlot::CacheControl, b"Cache-Control", b"no-cache"),
        (HeaderSlot::Link, b"Link", b"</next>; rel=next"),
    ];

    let mut headers = request(&native).headers_out_builder(&mut native, 1).unwrap();
    headers.add(&mut native, b"Content-Type", content_type).unwrap();
    headers.set_content_length(91).unwrap();
    for (_, key, value) in standard_headers {
        headers.add(&mut native, key, value).unwrap();
    }
    headers.add(&mut native, b"X-Duplicate", b"one").unwrap();
    headers.add(&mut native, b"X-Duplicate", b"two").unwrap();
    headers.commit(&mut native);

    let out = &native.request(REQUEST).headers_out;
    assert_eq!(out.status, 201);
    assert_eq!(bytes(&out.status_line), b"201 Created");
    assert_eq!(out.content_length_n, 91);
    assert_eq!(out.content_offset, 7);
    assert_eq!(out.date_time, 11);
    assert_eq!(out.last_modified_time, 13);
    assert_eq!(bytes(&out.content_type), content_type);
    assert_eq!(out.content_type_len, content_type.len());
    assert!(out.content_type_lowcase.is_none());
    assert_eq!(out.content_type_hash, 0);
    for (slot, _, value) in standard_headers {
        assert_eq!(slot_value(&out.slots, &out.headers, slot), Some(value));
    }
    assert!(out.slots.get(HeaderSlot::ContentLength).is_empty());

    let listed = listed(&native, false);
    assert_eq!(
        listed
            .iter()
            .filter(|(key, _)| {
                key.eq_ignore_ascii_case(b"Content-Type")
                    || key.eq_ignore_ascii_case(b"Content-Length")
                    || key.eq_ignore_ascii_case(b"Transfer-Encoding")
            })
            .count(),
        0
    );
    assert_eq!(listed.iter().filter(|(key, _)| key == b"X-Duplicate").count(), 2);
}

#[test]
fn output_header_builders_require_typed_framing_without_partial_publication() {
    for clean in [false, true] {
        let mut native = state();
        empty_list(&mut native, false);
        add_direct(&mut native, false, "X-Original", "kept").unwrap();
        raw(&mut native).headers_out.content_length_n = 91;

        let mut view = request(&native);
        let mut headers = if clean {
            view.clean_headers_out_builder(&mut native, 1).unwrap()
        } else {
            view.headers_out_builder(&mut native, 1).unwrap()
        };
        assert_eq!(
            headers.add(&mut native, b"Content-Length", b"7"),
            Err(HeaderBuildError::ManagedOutputFraming)
        );
        assert_eq!(
            headers.add(&mut native, b"Transfer-Encoding", b"chunked"),
            Err(HeaderBuildError::ManagedOutputFraming)
        );

        assert_eq!(native.request(REQUEST).headers_out.content_length_n, 91);
        assert_eq!(listed(&native, false), vec![field(b"X-Original", b"kept")]);
    }
}

#[test]
fn typed_output_content_length_synchronizes_builder_and_direct_state() {
    for clean in [false, true] {
        let mut native = state();
        raw(&mut native).headers_out.content_length_n = 91;
        let mut view = request(&native);
        let mut headers = if clean {
            view.clean_headers_out_builder(&mut native, 1).unwrap()
        } else {
            view.headers_out_builder(&mut native, 1).unwrap()
        };
        headers.set_content_length(7).unwrap();
        headers.commit(&mut native);

        let out = &native.request(REQUEST).headers_out;
        assert_eq!(out.content_length_n, 7);
        assert!(out.slots.get(HeaderSlot::ContentLength).is_empty());
        assert!(listed(&native, false).is_empty());
    }

    let mut native = state();
    let pool = native.pools.get_mut(&POOL).unwrap();
    let mut list = create_header_list(pool, 2).unwrap();
    let length = append_pool_header(&mut list, pool, b"Content-Length", b"91").unwrap();
    let encoding = append_pool_header(&mut list, pool, b"Transfer-Encoding", b"chunked").unwrap();
    {
        let request = raw(&mut native);
        request.headers_out.headers = list;
        request.headers_out.slots.set(HeaderSlot::ContentLength, vec![length]);
        request.headers_out.content_length_n = 91;
        request.chunked = true;
    }
    request(&native).set_content_length_n(&mut native, 7).unwrap();

    let request = native.request(REQUEST);
    assert_eq!(request.headers_out.content_length_n, 7);
    assert!(request.headers_out.slots.get(HeaderSlot::ContentLength).is_empty());
    assert!(!request.chunked);
    assert_eq!(request.headers_out.headers.get(length).hash, 0);
    assert_eq!(request.headers_out.headers.get(encoding).hash, 0);
}

#[test]
fn direct_output_header_add_rejects_native_framing_ownership() {
    let mut native = state();
    empty_list(&mut native, false);
    assert_eq!(
        add_direct(&mut native, false, "Content-Length", "invalid"),
        Err(RequestError::ManagedOutputFraming)
    );
    assert_eq!(
        add_direct(&mut native, false, "Transfer-Encoding", "chunked"),
        Err(RequestError::ManagedOutputFraming)
    );
    assert!(listed(&native, false).is_empty());
}

#[test]
fn content_lengths_beyond_the_native_offset_type_are_refused() {
    let mut native = state();
    empty_list(&mut native, false);
    let mut view = request(&native);
    assert_eq!(
        view.set_content_length_n(&mut native, usize::MAX),
        Err(RequestError::ContentLengthTooLarge)
    );
    let mut headers = view.headers_out_builder(&mut native, 1).unwrap();
    assert_eq!(
        headers.set_content_length(usize::MAX),
        Err(HeaderBuildError::ContentLengthTooLarge)
    );
}

#[test]
fn output_header_builder_publishes_trailers_and_expectation() {
    let mut native = state();
    let trailers = create_header_list(native.pools.get_mut(&POOL).unwrap(), 1).unwrap();
    raw(&mut native).headers_out.trailers = trailers;

    let mut headers = request(&native).clean_headers_out_builder(&mut native, 1).unwrap();
    headers.add_trailer(&mut native, b"Digest", b"sha-256=value").unwrap();
    headers.add_trailer(&mut native, b"X-Trace", b"one").unwrap();
    headers.commit(&mut native);

    let view = request(&native);
    assert!(view.expect_trailers(&native));
    assert_eq!(
        fields(&view.trailers_out(&native).unwrap()),
        vec![field(b"Digest", b"sha-256=value"), field(b"X-Trace", b"one")]
    );
}

#[test]
fn output_header_builder_replaces_broken_trailers_with_its_own() {
    let mut native = state();
    let trailers = create_header_list(native.pools.get_mut(&POOL).unwrap(), 1).unwrap();
    raw(&mut native).headers_out.trailers = trailers;
    let mut headers = request(&native).clean_headers_out_builder(&mut native, 1).unwrap();
    headers.add_trailer(&mut native, b"Digest", b"sha-256=value").unwrap();
    raw(&mut native).headers_out.trailers.parts[0].next = Some(3);
    headers.commit(&mut native);
    assert_eq!(
        fields(&request(&native).trailers_out(&native).unwrap()),
        vec![field(b"Digest", b"sha-256=value")]
    );
}

#[test]
fn output_trailer_builder_replaces_only_the_trailer_set() {
    let mut native = state();
    raw(&mut native).headers_out.status = 201;

    let mut trailers = request(&native).trailers_out_builder(&mut native, 1).unwrap();
    trailers.add(&mut native, b"X-Original", b"old").unwrap();
    trailers.commit(&mut native);

    let mut trailers = request(&native).trailers_out_builder(&mut native, 1).unwrap();
    trailers.add(&mut native, b"Digest", b"sha-256=value").unwrap();
    trailers.add(&mut native, b"X-Trace", b"one").unwrap();
    trailers.commit(&mut native);

    assert_eq!(native.request(REQUEST).headers_out.status, 201);
    let view = request(&native);
    assert!(view.expect_trailers(&native));
    assert_eq!(
        fields(&view.trailers_out(&native).unwrap()),
        vec![field(b"Digest", b"sha-256=value"), field(b"X-Trace", b"one")]
    );

    request(&native).trailers_out_builder(&mut native, 1).unwrap().commit(&mut native);
    assert_eq!(native.request(REQUEST).headers_out.status, 201);
    assert!(!view.expect_trailers(&native));
    assert!(fields(&view.trailers_out(&native).unwrap()).is_empty());
}

#[test]
fn abandoned_clean_output_header_candidate_does_not_mutate_live_trailers() {
    let mut native = state();
    let mut trailers = request(&native).trailers_out_builder(&mut native, 1).unwrap();
    trailers.add(&mut native, b"X-Original", b"old").unwrap();
    trailers.commit(&mut native);
    {
        let mut headers = request(&native).clean_headers_out_builder(&mut native, 1).unwrap();
        headers.add_trailer(&mut native, b"X-Candidate", b"new").unwrap();
    }

    let view = request(&native);
    assert_eq!(
        fields(&view.trailers_out(&native).unwrap()),
        vec![field(b"X-Original", b"old")]
    );
}

#[test]
fn output_header_builder_resets_response_metadata_on_request() {
    let mut native = state();
    {
        let out = &mut raw(&mut native).headers_out;
        out.status = 201;
        out.status_line = NativeString { len: 11, data: Some(b"201 Created".to_vec()) };
        out.override_charset = Some(NativeString::empty());
        out.content_length_n = 91;
        out.content_offset = 7;
        out.date_time = 11;
        out.last_modified_time = 13;
    }
    request(&native).set_expect_trailers(&mut native, true);

    let mut headers = request(&native).clean_headers_out_builder(&mut native, 1).unwrap();
    headers.add(&mut native, b"Content-Type", b"text/plain").unwrap();
    headers.add(&mut native, b"Location", b"/next").unwrap();
    headers.commit(&mut native);

    let out = &native.request(REQUEST).headers_out;
    assert_eq!(out.status, 0);
    assert!(out.status_line.data.is_none());
    assert_eq!(out.status_line.len, 0);
    assert!(out.override_charset.is_none());
    assert_eq!(out.content_length_n, -1);
    assert_eq!(out.content_offset, 0);
    assert_eq!(out.date_time, 0);
    assert_eq!(out.last_modified_time, -1);
    assert!(!request(&native).expect_trailers(&native));
    assert_eq!(out.trailers.parts.len(), 1);
    assert_eq!(out.trailers.parts[0].nelts, 0);
    assert_eq!(out.trailers.last, 0);
    assert_eq!(bytes(&out.content_type), b"text/plain");
    assert_eq!(
        slot_value(&out.slots, &out.headers, HeaderSlot::Location),
        Some(b"/next".as_slice())
    );
}

#[test]
fn request_pool_prepares_a_body_before_output_headers_commit() {
    let mut native = state();
    let address = request(&native).pool(&native).unwrap();
    let pool = native.pools.get_mut(&address).unwrap();
    let buffer = pool.copy_buffer(b"body", BufferFlags::default()).unwrap();
    let mut body = PoolChain::new(address);
    body.append(pool, PoolBuffer { pool: address, buffer }).unwrap();

    let mut headers = request(&native).clean_headers_out_builder(&mut native, 1).unwrap();
    headers.add(&mut native, b"Content-Type", b"text/plain").unwrap();
    headers.commit(&mut native);

    assert_eq!(body.buffers.len(), 1);
}

#[test]
fn input_header_builder_keeps_live_headers_when_each_pool_allocation_fails() {
    let mut reached_success = false;

    for successes in 0..32 {
        let mut native = state();
        native.pools.insert(POOL, pool(successes));
        {
            let headers = &mut raw(&mut native).headers_in;
            headers.slots.set(HeaderSlot::Host, vec![EntryAt { part: 0, index: 0 }]);
            headers.count = 41;
            headers.content_length_n = 42;
            headers.keep_alive_n = 43;
        }

        let mut build = || {
            let mut headers = request(&native).headers_in_builder(&mut native, 1)?;
            headers.add(&mut native, b"X-First", b"one")?;
            headers.add(&mut native, b"X-Second", b"two")?;
            headers.commit(&mut native);
            Ok::<(), HeaderBuildError>(())
        };
        let result = build();
        if result.is_ok() {
            reached_success = true;
            break;
        }
        assert_eq!(result, Err(HeaderBuildError::Allocation));
        let headers = &native.request(REQUEST).headers_in;
        assert_eq!(headers.headers.parts.len(), 1);
        assert_eq!(headers.headers.parts[0].nelts, 0);
        assert_eq!(headers.headers.size, 0);
        assert_eq!(headers.slots.get(HeaderSlot::Host).len(), 1);
        assert_eq!(headers.count, 41);
        assert_eq!(headers.content_length_n, 42);
        assert_eq!(headers.keep_alive_n, 43);
    }

    assert!(reached_success);
}

#[test]
fn output_header_builder_keeps_live_headers_when_each_pool_allocation_fails() {
    let mut reached_success = false;

    for successes in 0..32 {
        let mut native = state();
        native.pools.insert(POOL, pool(successes));
        {
            let headers = &mut raw(&mut native).headers_out;
            headers.slots.set(HeaderSlot::Server, vec![EntryAt { part: 0, index: 0 }]);
            headers.status = 201;
            headers.content_length_n = 42;
        }

        let mut build = || {
            let mut headers = request(&native).headers_out_builder(&mut native, 1)?;
            headers.add(&mut native, b"Content-Type", b"text/plain")?;
            headers.add(&mut native, b"X-First", b"one")?;
            headers.add(&mut native, b"X-Second", b"two")?;
            headers.commit(&mut native);
            Ok::<(), HeaderBuildError>(())
        };
        let result = build();
        if result.is_ok() {
            reached_success = true;
            break;
        }
        assert_eq!(result, Err(HeaderBuildError::Allocation));
        let headers = &native.request(REQUEST).headers_out;
        assert_eq!(headers.headers.parts.len(), 1);
        assert_eq!(headers.headers.parts[0].nelts, 0);
        assert_eq!(headers.slots.get(HeaderSlot::Server).len(), 1);
        assert_eq!(headers.status, 201);
        assert_eq!(headers.content_length_n, 42);
    }

    assert!(reached_success);
}

#[test]
fn header_builders_copy_temporary_bytes_before_publication() {
    let mut native = state();
    let mut headers = request(&native).headers_in_builder(&mut native, 1).unwrap();
    {
        let mut key = *b"X-In";
        let mut value = *b"input";
        headers.add(&mut native, &key, &value).unwrap();
        key.fill(b'!');
        value.fill(b'!');
    }
    headers.commit(&mut native);

    let mut headers = request(&native).headers_out_builder(&mut native, 1).unwrap();
    {
        let mut value = *b"text/plain";
        headers.add(&mut native, b"Content-Type", &value).unwrap();
        value.fill(b'!');
    }
    headers.commit(&mut native);

    assert_eq!(listed(&native, true), vec![field(b"X-In", b"input")]);
    assert_eq!(bytes(&native.request(REQUEST).headers_out.content_type), b"text/plain");
}

#[test]
fn header_builders_publish_empty_lists() {
    let mut native = state();
    request(&native).headers_in_builder(&mut native, 1).unwrap().commit(&mut native);

    let headers = &native.request(REQUEST).headers_in;
    assert_eq!(headers.count, 0);
    assert_eq!(headers.content_length_n, -1);
    assert_eq!(headers.keep_alive_n, -1);
    assert!(listed(&native, true).is_empty());

    request(&native).headers_out_builder(&mut native, 1).unwrap().commit(&mut native);
    assert!(listed(&native, false).is_empty());
}

#[test]
fn header_builders_reject_unrepresentable_capacity() {
    let mut native = state();
    let capacity = isize::MAX as usize / HEADER_ENTRY_SIZE + 1;
    let mut view = request(&native);
    for capacity in [0, capacity] {
        assert!(matches!(
            view.headers_in_builder(&mut native, capacity),
            Err(HeaderBuildError::InvalidCapacity)
        ));
        assert!(matches!(
            view.headers_out_builder(&mut native, capacity),
            Err(HeaderBuildError::InvalidCapacity)
        ));
    }
}

#[test]
fn slots_are_found_by_name_in_any_case() {
    assert_eq!(HeaderSlot::for_key(b"hOST"), Some(HeaderSlot::Host));
    assert_eq!(HeaderSlot::for_key(b"etag"), Some(HeaderSlot::Etag));
    assert_eq!(HeaderSlot::for_key(b"X-Host"), None);
    assert!(HeaderSlot::ContentRange.is_input());
    assert!(HeaderSlot::ContentRange.is_output());
    assert!(!HeaderSlot::Cookie.is_output());
}
