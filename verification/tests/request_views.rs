use ngx_http::native::{
    ConnectionError, HttpConfigError, ModuleDescriptor, NativeConnection, NativeRequest,
    NativeState, NativeString, NginxCall, Pointer, NGX_CORE_MODULE, NGX_HTTP_MAX_SUBREQUESTS,
    NGX_HTTP_MODULE,
};
use ngx_http::buffer::PoolChain;
use ngx_http::request::header_slots::HeaderSlot;
use ngx_http::request::headers::{
    EntryAt, HeaderListError, NativeHeader, NativeList, NativeListPart, HEADER_ENTRY_SIZE,
};
use ngx_http::request::header_access::list_iterator;
use ngx_http::request::method::{Method, NGX_HTTP_GET, NGX_HTTP_PATCH, NGX_HTTP_POST};
use ngx_http::request::view::{RequestError, RequestRef, RequestRefMut};
use ngx_http::status::HTTPStatus;
use ngx_http::upstream::state::{
    NativeStateArray, NativeUpstreamState, UpstreamState, UpstreamStateError, UPSTREAM_STATE_SIZE,
};

const MAIN: usize = 0x1000;
const CHILD: usize = 0x1100;
const PARENT: usize = 0x1200;
const POOL: usize = 0x2000;

fn initialized(main: usize) -> NativeRequest {
    let mut request = NativeRequest::zeroed();
    request.signature = NGX_HTTP_MODULE;
    request.main = main;
    request
}

/// A state whose only request is a main request.
fn one_request() -> NativeState {
    let mut native = NativeState::new(1, 1);
    native.requests.insert(MAIN, initialized(MAIN));
    native
}

/// A state with a main request that `edit` changed.
fn edited(edit: impl FnOnce(&mut NativeRequest)) -> NativeState {
    let mut native = one_request();
    edit(native.requests.get_mut(&MAIN).unwrap());
    native
}

fn main_request(native: &NativeState) -> RequestRefMut {
    RequestRefMut::from_raw(native, MAIN).unwrap()
}

fn text(value: &[u8]) -> NativeString {
    NativeString { len: value.len(), data: Some(value.to_vec()) }
}

fn connection() -> NativeConnection {
    NativeConnection { log: Pointer::Null, sent: 0, data: MAIN, write: Pointer::Null }
}

#[test]
fn callback_scoped_request_rejects_null_and_misaligned_raw_pointers() {
    let mut native = NativeState::new(1, 1);
    native.requests.insert(MAIN, NativeRequest::zeroed());
    assert!(matches!(RequestRefMut::from_raw(&native, 0), Err(RequestError::NullRequest)));
    assert!(matches!(RequestRefMut::from_raw(&native, 1), Err(RequestError::MisalignedRequest)));
    assert!(matches!(
        RequestRefMut::from_raw(&native, MAIN),
        Err(RequestError::InvalidRequestSignature)
    ));
    assert!(matches!(RequestRef::from_raw(&native, 0), Err(RequestError::NullRequest)));
    assert_eq!(RequestRef::with_raw(&native, 1, |_| 7), Err(RequestError::MisalignedRequest));
    let native = one_request();
    assert_eq!(RequestRefMut::with_raw(&native, MAIN, |request| request.as_ptr()), Ok(MAIN));
}

#[test]
fn main_request_validation_rejects_missing_invalid_and_foreign_links() {
    let native = edited(|request| request.main = 0);
    assert!(matches!(main_request(&native).main(&native), Err(RequestError::MissingMain)));

    let native = edited(|request| request.main = 1);
    assert!(matches!(main_request(&native).main(&native), Err(RequestError::MisalignedMain)));

    let mut native = edited(|request| request.main = PARENT);
    native.requests.insert(PARENT, NativeRequest::zeroed());
    assert!(matches!(main_request(&native).main(&native), Err(RequestError::InvalidMainSignature)));

    let mut native = one_request();
    native.requests.insert(CHILD, initialized(MAIN));
    let foreign = RequestRefMut::from_raw(&native, CHILD).unwrap();
    assert!(matches!(foreign.main(&native), Err(RequestError::ForeignMain)));

    let mut native = one_request();
    let mut parent = initialized(PARENT);
    parent.parent = MAIN;
    native.requests.insert(PARENT, parent);
    let mut child = initialized(MAIN);
    child.parent = PARENT;
    native.requests.insert(CHILD, child);
    let child = RequestRefMut::from_raw(&native, CHILD).unwrap();
    assert!(matches!(child.main(&native), Err(RequestError::ForeignMain)));
}

#[test]
fn deepest_native_subrequest_chain_resolves_to_main() {
    let request_count = NGX_HTTP_MAX_SUBREQUESTS + 2;
    let mut native = one_request();
    for index in 1..request_count {
        let mut child = initialized(MAIN);
        child.parent = MAIN + (index - 1) * 8;
        native.requests.insert(MAIN + index * 8, child);
    }

    let deepest = RequestRefMut::from_raw(&native, MAIN + (request_count - 1) * 8).unwrap();
    assert_eq!(deepest.main(&native).unwrap().as_ptr(), MAIN);

    let mut child = initialized(MAIN);
    child.parent = MAIN + (request_count - 1) * 8;
    native.requests.insert(MAIN + request_count * 8, child);
    let too_deep = RequestRefMut::from_raw(&native, MAIN + request_count * 8).unwrap();
    assert_eq!(too_deep.main(&native).err(), Some(RequestError::ForeignMain));
}

#[test]
fn request_views_validate_pool_connection_and_logger_pointers() {
    let native = one_request();
    assert!(matches!(main_request(&native).pool(&native), Err(RequestError::MissingPool)));

    let native = edited(|request| request.pool = 1);
    assert!(matches!(main_request(&native).pool(&native), Err(RequestError::MisalignedPool)));

    let native = edited(|request| request.pool = POOL);
    assert_eq!(main_request(&native).pool(&native), Ok(POOL));

    let native = one_request();
    assert_eq!(
        main_request(&native).connection(&native).err(),
        Some(RequestError::Connection(ConnectionError::NullConnection))
    );
    assert_eq!(
        main_request(&native).connection_mut(&native).err(),
        Some(RequestError::Connection(ConnectionError::NullConnection))
    );

    let native = edited(|request| request.connection = Pointer::Misaligned);
    assert_eq!(
        main_request(&native).connection(&native).err(),
        Some(RequestError::Connection(ConnectionError::MisalignedConnection))
    );

    let native = edited(|request| request.connection = Pointer::To(connection()));
    assert_eq!(main_request(&native).log(&native), Ok(None));

    let native = edited(|request| {
        request.connection =
            Pointer::To(NativeConnection { log: Pointer::Misaligned, ..connection() })
    });
    assert_eq!(
        main_request(&native).log(&native),
        Err(RequestError::Connection(ConnectionError::MisalignedLog))
    );
}

#[test]
fn exclusive_connection_access_changes_the_connection() {
    let mut native = edited(|request| request.connection = Pointer::To(connection()));
    let mut request = main_request(&native);
    let mut client = request.connection_mut(&native).unwrap();
    assert_eq!(client.get(&native).sent, 0);
    client.set(&mut native, NativeConnection { sent: 5, ..connection() });
    assert_eq!(request.bytes_sent(&native), Ok(5));
}

#[test]
fn request_fields_return_checked_strings_counters_and_status() {
    let path = b"/path";
    let uri = b"/path?query=1";
    let agent = b"curl/8";
    let native = edited(|raw| {
        raw.uri = text(path);
        raw.unparsed_uri = text(uri);
        raw.headers_in.headers = one_part(vec![header(1, b"User-Agent", agent)]);
        raw.headers_in.slots.set(HeaderSlot::UserAgent, vec![EntryAt { part: 0, index: 0 }]);
        raw.method = NGX_HTTP_GET;
        raw.headers_out.status = 204;
        raw.start_sec = 1_700_000_000;
        raw.start_msec = 250;
        raw.request_length = 4096;
    });

    let request = main_request(&native);
    assert_eq!(request.path(&native).unwrap(), path);
    assert_eq!(request.unparsed_uri(&native).unwrap(), uri);
    assert_eq!(request.user_agent(&native).unwrap().unwrap(), agent);
    assert_eq!(request.method(&native), Method::GET);
    assert_eq!(request.status(&native), Some(HTTPStatus(204)));
    assert_eq!(request.start_sec(&native), Ok(1_700_000_000));
    assert_eq!(request.start_msec(&native), 250);
    assert_eq!(request.request_length(&native), Ok(4096));

    let malformed = edited(|raw| raw.uri.len = 1);
    assert_eq!(
        main_request(&malformed).path(&malformed),
        Err(RequestError::MissingStringData)
    );

    let negative = edited(|raw| {
        raw.start_sec = -1;
        raw.request_length = -1;
    });
    let request = main_request(&negative);
    assert_eq!(request.start_sec(&negative), Err(RequestError::NegativeStartTime));
    assert_eq!(request.request_length(&negative), Err(RequestError::NegativeCounter));
}

#[test]
fn request_fields_accept_empty_uri_parts_and_method_variants() {
    let native = one_request();
    let empty = main_request(&native);
    assert_eq!(empty.path(&native).unwrap(), b"");
    assert_eq!(empty.unparsed_uri(&native).unwrap(), b"");

    let native = edited(|raw| raw.method = NGX_HTTP_POST);
    assert_eq!(main_request(&native).method(&native), Method::POST);

    let native = edited(|raw| raw.method = NGX_HTTP_PATCH);
    assert_eq!(main_request(&native).method(&native), Method::PATCH);
}

#[test]
fn request_upstream_states_use_checked_array_views() {
    let mut attempts = vec![
        UpstreamState(NativeUpstreamState::zeroed()),
        UpstreamState(NativeUpstreamState::zeroed()),
    ];
    attempts[0].0.status = 502;
    attempts[1].0.status = 503;
    let native = edited(|raw| {
        raw.upstream_states = Pointer::To(NativeStateArray {
            nelts: attempts.len(),
            nalloc: attempts.len(),
            elts: Pointer::To(attempts),
            size: UPSTREAM_STATE_SIZE,
        })
    });

    let request = main_request(&native);
    let states = request.upstream_states(&native).unwrap().unwrap();
    assert_eq!(states.len(), 2);
    assert_eq!(states.get(0).unwrap().status(), Some(502));
    assert_eq!(
        request.view().upstream_states(&native).unwrap().unwrap().get(1).unwrap().status(),
        Some(503)
    );
    assert_eq!(request.upstream(&native), None);

    let malformed = edited(|raw| {
        raw.upstream_states = Pointer::Misaligned;
        raw.upstream = 0x3000;
    });
    assert!(matches!(
        main_request(&malformed).upstream_states(&malformed),
        Err(UpstreamStateError::MisalignedArray)
    ));
    assert_eq!(main_request(&malformed).upstream(&malformed), Some(0x3000));
}

fn header(hash: usize, key: &[u8], value: &[u8]) -> NativeHeader {
    NativeHeader { hash, key: text(key), value: text(value), lowcase_key: None }
}

fn one_part(entries: Vec<NativeHeader>) -> NativeList {
    NativeList {
        last: 0,
        size: HEADER_ENTRY_SIZE,
        nalloc: entries.len(),
        parts: vec![NativeListPart { nelts: entries.len(), elts: Some(entries), next: None }],
    }
}

#[test]
fn header_iterator_returns_keys_and_values() {
    let raw = one_part(vec![header(1, b"X-First", b"one"), header(1, b"X-Second", b"two")]);

    let mut values = Vec::new();
    let mut iter = list_iterator(&raw);
    while let Some((key, value)) = iter.next() {
        values.push((key, value));
    }

    assert_eq!(
        values,
        [
            (b"X-First".as_slice(), b"one".as_slice()),
            (b"X-Second".as_slice(), b"two".as_slice())
        ]
    );
}

#[test]
fn checked_header_views_keep_raw_bytes_and_skip_disabled_entries() {
    let input_key = [b'X', b'-', 0xff];
    let input_value = [0, 0xff];
    let input_lowcase = [b'x', b'-', 0xff];
    let input = NativeHeader {
        hash: 17,
        key: text(&input_key),
        value: text(&input_value),
        lowcase_key: Some(input_lowcase.to_vec()),
    };
    let disabled = NativeHeader {
        hash: 0,
        key: NativeString { len: 9, data: None },
        value: NativeString { len: 9, data: None },
        lowcase_key: None,
    };
    let output_key = [b'Y', 0xfe];
    let output_value = [0xff, b'!'];
    let native = edited(|raw| {
        raw.headers_in.headers = NativeList {
            last: 2,
            size: HEADER_ENTRY_SIZE,
            nalloc: 1,
            parts: vec![
                NativeListPart { elts: Some(vec![input]), nelts: 1, next: Some(1) },
                NativeListPart { elts: Some(Vec::new()), nelts: 0, next: Some(2) },
                NativeListPart { elts: Some(vec![disabled]), nelts: 1, next: None },
            ],
        };
        raw.headers_out.headers = one_part(vec![header(23, &output_key, &output_value)]);
    });

    let request = main_request(&native);
    let input = request.headers_in(&native).unwrap();
    assert_eq!(input.len(), 1);
    let mut headers = input.iter();
    assert_eq!(headers.len(), 1);
    let first = headers.next().unwrap();
    assert!(headers.next().is_none());
    assert_eq!(first.key(), input_key);
    assert_eq!(first.value(), input_value);
    assert_eq!(first.lowercase_key(), Some(input_lowcase.as_slice()));
    assert_eq!(first.hash(), 17);
    assert!(first.is_enabled());

    let output = request.headers_out(&native).unwrap();
    let header = output.iter().next().unwrap();
    assert_eq!(header.key(), output_key);
    assert_eq!(header.value(), output_value);
    assert_eq!(header.lowercase_key(), None);
    assert_eq!(header.hash(), 23);
}

#[test]
fn native_post_push_failure_is_skipped_before_partial_header_fields() {
    let partial = NativeHeader {
        hash: 0,
        key: NativeString { len: 0xa5a5, data: None },
        value: NativeString { len: 0xa5a5, data: None },
        lowcase_key: None,
    };
    let native = edited(|raw| raw.headers_out.headers = one_part(vec![partial]));
    let request = main_request(&native);
    assert!(request.headers_out(&native).unwrap().is_empty());
    assert!(request.headers_out_iterator(&native).next().is_none());
}

fn input_error(list: NativeList) -> HeaderListError {
    let native = edited(|raw| raw.headers_in.headers = list);
    main_request(&native).headers_in(&native).err().unwrap()
}

#[test]
fn checked_header_views_reject_invalid_list_and_string_state() {
    let part = |elts, nelts, next| NativeListPart { elts, nelts, next };
    let list = |part| NativeList {
        parts: vec![part],
        last: 0,
        size: HEADER_ENTRY_SIZE,
        nalloc: 1,
    };
    let zeroed = || NativeHeader {
        hash: 0,
        key: NativeString::empty(),
        value: NativeString::empty(),
        lowcase_key: None,
    };
    assert_eq!(input_error(list(part(None, 1, None))), HeaderListError::InvalidList);
    assert_eq!(
        input_error(list(part(Some(vec![zeroed()]), 2, None))),
        HeaderListError::InvalidList
    );
    assert_eq!(
        input_error(list(part(Some(vec![zeroed()]), 1, Some(0)))),
        HeaderListError::InvalidList
    );

    let mut missing_key = zeroed();
    missing_key.hash = 1;
    missing_key.key.len = 1;
    assert_eq!(
        input_error(list(part(Some(vec![missing_key]), 1, None))),
        HeaderListError::MissingKeyData
    );

    let mut missing_value = zeroed();
    missing_value.hash = 1;
    missing_value.key = text(b"X");
    missing_value.value.len = 1;
    assert_eq!(
        input_error(list(part(Some(vec![missing_value]), 1, None))),
        HeaderListError::MissingValueData
    );

    let mut long_key = zeroed();
    long_key.hash = 1;
    long_key.key.len = isize::MAX as usize + 1;
    assert_eq!(
        input_error(list(part(Some(vec![long_key]), 1, None))),
        HeaderListError::KeyTooLong
    );

    let mut long_value = zeroed();
    long_value.hash = 1;
    long_value.key = text(b"X");
    long_value.value.len = isize::MAX as usize + 1;
    assert_eq!(
        input_error(list(part(Some(vec![long_value]), 1, None))),
        HeaderListError::ValueTooLong
    );

    let native = edited(|raw| {
        raw.headers_out.headers = list(part(Some(vec![zeroed()]), 1, Some(0)));
    });
    assert!(matches!(
        main_request(&native).headers_out(&native),
        Err(HeaderListError::InvalidList)
    ));
}

#[test]
fn request_metrics_read_nginx_fields() {
    let native = edited(|raw| {
        raw.start_sec = 1_700_000_000;
        raw.start_msec = 250;
        raw.request_length = 4096;
    });

    let request = main_request(&native);
    assert_eq!(request.start_sec(&native), Ok(1_700_000_000));
    assert_eq!(request.start_msec(&native), 250);
    assert_eq!(request.request_length(&native), Ok(4096));
}

#[test]
fn bytes_sent_reads_the_client_connection() {
    let native = edited(|raw| {
        raw.connection = Pointer::To(NativeConnection { sent: 8192, ..connection() });
    });
    assert_eq!(main_request(&native).bytes_sent(&native), Ok(8192));
}

#[test]
fn bytes_sent_rejects_a_negative_client_counter() {
    let native = edited(|raw| {
        raw.connection = Pointer::To(NativeConnection { sent: -1, ..connection() });
    });
    assert_eq!(
        main_request(&native).bytes_sent(&native),
        Err(RequestError::Connection(ConnectionError::NegativeBytesSent))
    );
}

#[test]
fn internal_redirect_flag_is_exposed() {
    let native = one_request();
    assert!(!main_request(&native).is_internal(&native));

    let native = edited(|raw| raw.internal = true);
    assert!(main_request(&native).is_internal(&native));
}

#[test]
fn request_flags_read_back_what_was_set() {
    let mut native = edited(|raw| raw.internal = true);
    let mut request = main_request(&native);
    request.set_header_only(&mut native, true);
    request.set_keepalive(&mut native, true);
    request.set_header_sent(&mut native, true);
    request.set_expect_trailers(&mut native, true);
    request.set_status(&mut native, HTTPStatus(418));

    assert!(request.is_internal(&native));
    assert!(request.header_only(&native));
    assert!(request.keepalive(&native));
    assert!(request.expect_trailers(&native));
    assert_eq!(request.status(&native), Some(HTTPStatus(418)));
    assert!(native.request(MAIN).header_sent);
    request.set_keepalive(&mut native, false);
    assert!(!request.keepalive(&native));
    assert!(request.header_only(&native));
}

#[test]
fn subrequests_available_reports_the_remaining_nested_budget() {
    for available in [3, 1, 0] {
        let native = edited(|raw| raw.subrequests = available);
        assert_eq!(main_request(&native).subrequests_available(&native), available);
    }
}

#[test]
fn main_returns_the_same_main_request() {
    let native = one_request();
    let request = main_request(&native);

    assert!(request.is_main(&native).unwrap());
    assert_eq!(request.view().as_ptr(), request.view().as_ptr());
    assert_eq!(request.main(&native).unwrap().as_ptr(), request.as_ptr());
}

fn with_child(parent: usize) -> NativeState {
    let mut native = one_request();
    let mut child = initialized(MAIN);
    child.parent = parent;
    native.requests.insert(CHILD, child);
    native
}

#[test]
fn main_returns_the_parent_of_a_subrequest() {
    let native = with_child(MAIN);
    let request = RequestRefMut::from_raw(&native, CHILD).unwrap();
    assert_eq!(request.main(&native).unwrap().as_ptr(), MAIN);
    assert!(!request.is_main(&native).unwrap());
}

#[test]
fn main_returns_the_root_of_nested_subrequests() {
    let mut native = with_child(PARENT);
    let mut parent = initialized(MAIN);
    parent.parent = MAIN;
    native.requests.insert(PARENT, parent);

    let request = RequestRefMut::from_raw(&native, CHILD).unwrap();
    assert_eq!(request.main(&native).unwrap().as_ptr(), MAIN);
}

#[test]
fn main_mut_gives_the_main_request_of_a_subrequest() {
    let native = with_child(MAIN);
    let mut request = RequestRefMut::from_raw(&native, CHILD).unwrap();
    let main = request.main_mut(&native).unwrap();
    assert_eq!(main.request.as_ptr(), MAIN);
}

#[test]
fn into_main_consumes_a_subrequest_view() {
    let native = with_child(MAIN);
    let main = RequestRefMut::from_raw(&native, CHILD).unwrap().into_main(&native).unwrap();
    assert_eq!(main.as_ptr(), MAIN);
}

#[test]
fn status_is_none_when_unset_or_invalid() {
    let native = one_request();
    assert_eq!(main_request(&native).status(&native), None);

    let native = edited(|raw| raw.headers_out.status = 600);
    assert_eq!(main_request(&native).status(&native), None);
}

#[test]
fn status_returns_a_valid_response_status() {
    let native = edited(|raw| raw.headers_out.status = 204);
    assert_eq!(main_request(&native).status(&native), Some(HTTPStatus(204)));
    assert!(HTTPStatus::from_code(99).is_err());
    assert_eq!(HTTPStatus::from_code(599), Ok(HTTPStatus(599)));
}

#[test]
fn configuration_slots_are_resolved_by_module_index() {
    let http = ModuleDescriptor { type_: NGX_HTTP_MODULE, index: 0, ctx_index: 0 };
    let mut native = NativeState::new(2, 2);
    let mut raw = initialized(MAIN);
    raw.main_conf = Pointer::To(vec![0x700, 0]);
    raw.srv_conf = Pointer::Misaligned;
    raw.loc_conf = Pointer::Null;
    native.requests.insert(MAIN, raw);
    let request = main_request(&native);
    assert_eq!(request.main_conf(&native, http), Ok(Some(0x700)));
    assert_eq!(
        request.main_conf(&native, ModuleDescriptor { index: 1, ctx_index: 1, ..http }),
        Ok(None)
    );
    assert_eq!(request.server_conf(&native, http), Err(HttpConfigError::MisalignedSlots));
    assert_eq!(request.location_conf(&native, http), Ok(None));
    assert_eq!(
        request.main_conf(&native, ModuleDescriptor { type_: NGX_CORE_MODULE, ..http }),
        Err(HttpConfigError::WrongModuleType)
    );
    assert_eq!(
        request.main_conf(&native, ModuleDescriptor { ctx_index: 2, ..http }),
        Err(HttpConfigError::ModuleIndexOutOfBounds)
    );
}

#[test]
fn output_needs_a_request_that_nginx_can_use() {
    let native = edited(|raw| {
        raw.pool = POOL;
        raw.connection = Pointer::To(connection());
    });
    let mut request = main_request(&native);
    assert_eq!(request.send_header(&native), Ok(NginxCall::SendHeader { request: MAIN }));
    assert_eq!(
        request.output_filter(&native, &PoolChain::new(POOL)),
        Ok(NginxCall::OutputFilter { request: MAIN })
    );
    assert_eq!(
        request.output_filter(&native, &PoolChain::new(POOL + 8)),
        Err(RequestError::ForeignPool)
    );
}
