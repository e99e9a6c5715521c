use std::cell::Cell;
use std::rc::Rc;

use ngx_http::native::{
    NativeConnection, NativePool, NativeRequest, NativeState, NginxCall, Pointer, NGX_HTTP_MODULE,
};
use ngx_http::request::body::NativeBody;
use ngx_http::request::headers::HttpHeaderList;
use ngx_http::request::view::{RequestError, RequestRefMut};
use ngx_http::status::{NGX_ERROR, NGX_OK};
use ngx_http::subrequest::{
    run_handler, AsyncSubRequestState, SubRequestBuilder, SubRequestCompletion, SubRequestError,
    NGX_HTTP_SUBREQUEST_BACKGROUND, NGX_HTTP_SUBREQUEST_CLONE, NGX_HTTP_SUBREQUEST_IN_MEMORY,
    NGX_HTTP_SUBREQUEST_WAITED,
};

const PARENT: usize = 0x1000;
const CHILD: usize = 0x1100;
const POOL: usize = 0x2000;

struct DropCounter(Rc<Cell<usize>>);

impl Drop for DropCounter {
    fn drop(&mut self) {
        self.0.set(self.0.get() + 1);
    }
}

fn pool(blocks: usize) -> NativePool {
    NativePool::new((1..=blocks).map(|number| number * 0x10).collect())
}

fn zeroed_request() -> NativeRequest {
    let mut request = NativeRequest::zeroed();
    request.signature = NGX_HTTP_MODULE;
    request.main = PARENT;
    request.parent = PARENT;
    request.pool = POOL;
    request.count = 1;
    request.connection = Pointer::To(NativeConnection {
        log: Pointer::To(0x3000),
        sent: 0,
        data: PARENT,
        write: Pointer::Null,
    });
    request
}

fn state(blocks: usize) -> NativeState {
    let mut native = NativeState::new(1, 1);
    native.pools.insert(POOL, pool(blocks));
    native.requests.insert(PARENT, zeroed_request());
    native
}

fn parent(native: &NativeState) -> RequestRefMut {
    RequestRefMut::from_raw(native, PARENT).unwrap()
}

fn builder(native: &mut NativeState) -> SubRequestBuilder<DropCounter> {
    SubRequestBuilder::new(&parent(native), native, "/child").unwrap()
}

fn fields(list: &HttpHeaderList) -> Vec<(Vec<u8>, Vec<u8>)> {
    let mut iter = list.iter();
    let mut fields = Vec::new();
    while let Some(header) = iter.next() {
        fields.push((header.key().to_vec(), header.value().to_vec()));
    }
    fields
}

/// Gives a request the two headers of the inheritance tests.
fn add_headers(native: &mut NativeState, raw: usize, capacity: usize) {
    let mut request = RequestRefMut::from_raw(native, raw).unwrap();
    let mut headers = request.headers_in_builder(native, capacity).unwrap();
    headers.add(native, b"Host", b"parent.test").unwrap();
    headers.add(native, b"X-Second", b"two").unwrap();
    headers.commit(native);
}

#[test]
fn rejected_creation_drops_handler_before_parent_pool_cleanup() {
    let mut native = state(40);
    let drops = Rc::new(Cell::new(0));
    let pending = builder(&mut native)
        .handler(DropCounter(Rc::clone(&drops)))
        .build(&mut native)
        .unwrap();
    let creation = pending.finish(&mut native, NGX_ERROR, 0);
    assert_eq!(creation.result.err(), Some(SubRequestError::Create(NGX_ERROR)));
    assert!(creation.handler.is_none());
    assert_eq!(drops.get(), 1);
}

#[test]
fn post_handler_allocation_failure_drops_transferred_handler_once() {
    let mut native = state(40);
    let drops = Rc::new(Cell::new(0));
    let builder = builder(&mut native).keep_body().init_headers_in(0);
    native.pools.insert(POOL, pool(2));
    let result = builder.handler(DropCounter(Rc::clone(&drops))).build(&mut native);
    assert_eq!(result.err(), Some(SubRequestError::Alloc));
    assert_eq!(drops.get(), 1);
}

#[test]
fn inherited_headers_are_readable_for_one_and_multiple_parts() {
    for capacity in [2, 1] {
        let mut native = state(200);
        add_headers(&mut native, PARENT, capacity);
        let original = format!("{:?}", native.request(PARENT).headers_in);
        assert_eq!(native.request(PARENT).headers_in.headers.parts.len() == 1, capacity == 2);

        let pending = builder(&mut native)
            .keep_body()
            .init_headers_in(0)
            .background()
            .build(&mut native)
            .unwrap();
        assert_eq!(
            pending.call(),
            NginxCall::HttpSubrequest { request: PARENT, flags: NGX_HTTP_SUBREQUEST_BACKGROUND }
        );

        native.requests.insert(CHILD, zeroed_request());
        add_headers(&mut native, CHILD, capacity);
        native.requests.get_mut(&CHILD).unwrap().headers_in.headers.last = 7;
        let child = pending.finish(&mut native, NGX_OK, CHILD).result.unwrap();

        assert_eq!(native.request(CHILD).headers_in.count, 2);
        assert_eq!(
            native.request(CHILD).headers_in.headers.last,
            if capacity == 2 { 0 } else { 1 }
        );
        assert_eq!(
            fields(&child.headers_in(&native).unwrap()),
            vec![
                (b"Host".to_vec(), b"parent.test".to_vec()),
                (b"X-Second".to_vec(), b"two".to_vec()),
            ]
        );
        assert_eq!(native.request(PARENT).count, 1);
        assert_eq!(format!("{:?}", native.request(PARENT).headers_in), original);
    }
}

#[test]
fn inherited_header_creation_failures_do_not_change_the_parent() {
    let mut reached_success = false;
    for successes in 0..8 {
        let mut native = state(200);
        add_headers(&mut native, PARENT, 1);
        let original = format!("{:?}", native.request(PARENT));
        let builder = builder(&mut native);
        native.pools.insert(POOL, pool(successes));
        let pending =
            builder.keep_body().init_headers_in(0).background().build(&mut native).unwrap();
        if native.pool(POOL).blocks.len() < 3 {
            let creation = pending.finish(&mut native, NGX_ERROR, 0);
            assert_eq!(creation.result.err(), Some(SubRequestError::Create(NGX_ERROR)));
        } else {
            native.pools.insert(POOL, pool(200));
            native.requests.insert(CHILD, zeroed_request());
            add_headers(&mut native, CHILD, 1);
            let child = pending.finish(&mut native, NGX_OK, CHILD).result.unwrap();
            assert_eq!(child.headers_in(&native).unwrap().len(), 2);
            reached_success = true;
        }
        assert_eq!(format!("{:?}", native.request(PARENT)), original);
        if reached_success {
            break;
        }
    }
    assert!(reached_success);
}

#[test]
fn a_subrequest_gets_an_empty_body_and_empty_headers() {
    let mut native = state(200);
    native.requests.insert(CHILD, zeroed_request());
    add_headers(&mut native, CHILD, 2);
    let drops = Rc::new(Cell::new(0));
    let pending = builder(&mut native)
        .args(&mut native, "a=1")
        .unwrap()
        .handler(DropCounter(Rc::clone(&drops)))
        .build(&mut native)
        .unwrap();
    assert_eq!(pending.uri.as_bytes(), b"/child");
    assert_eq!(pending.args.as_ref().unwrap().as_bytes(), b"a=1");
    let creation = pending.finish(&mut native, NGX_OK, CHILD);
    let child = creation.result.unwrap();
    assert_eq!(drops.get(), 0);
    assert!(creation.handler.is_some());
    assert!(fields(&child.headers_in(&native).unwrap()).is_empty());
    assert_eq!(native.request(CHILD).headers_in.count, 0);
    assert_eq!(native.request(CHILD).headers_in.content_length_n, -1);
    assert!(matches!(
        native.request(CHILD).request_body,
        Pointer::To(NativeBody { bufs: Pointer::Null, temp_file: false })
    ));
}

#[test]
fn a_missing_subrequest_keeps_its_handler_with_nginx() {
    let mut native = state(40);
    let drops = Rc::new(Cell::new(0));
    let pending = builder(&mut native)
        .handler(DropCounter(Rc::clone(&drops)))
        .build(&mut native)
        .unwrap();
    let creation = pending.finish(&mut native, NGX_OK, 0);
    assert_eq!(
        creation.result.err(),
        Some(SubRequestError::Request(RequestError::NullRequest))
    );
    assert!(creation.handler.is_some());
    assert_eq!(drops.get(), 0);
}

#[test]
fn subrequest_flags_are_independent() {
    let mut native = state(40);
    let built = builder(&mut native);
    assert_eq!(built.flags, 0);
    assert_eq!(built.headers_in_capacity, 4);
    let built = built.in_memory();
    assert_eq!(built.flags, NGX_HTTP_SUBREQUEST_IN_MEMORY);
    let built = built.waited().cloned();
    assert_eq!(
        built.flags,
        NGX_HTTP_SUBREQUEST_IN_MEMORY | NGX_HTTP_SUBREQUEST_WAITED | NGX_HTTP_SUBREQUEST_CLONE
    );
    let built = built.background().background();
    assert_eq!(built.flags, 2 | 4 | 8 | 16);
}

#[test]
fn subrequest_strings_need_pool_storage() {
    let mut native = state(0);
    let result = SubRequestBuilder::<()>::new(&parent(&native), &mut native, "/child");
    assert_eq!(result.err(), Some(SubRequestError::Alloc));

    let mut native = state(1);
    let built = builder(&mut native);
    assert_eq!(built.args(&mut native, "a=1").err(), Some(SubRequestError::Alloc));

    let mut native = state(4);
    native.requests.get_mut(&PARENT).unwrap().pool = 0;
    let result = SubRequestBuilder::<()>::new(&parent(&native), &mut native, "/child");
    assert_eq!(result.err(), Some(SubRequestError::Request(RequestError::MissingPool)));
}

#[test]
fn completion_handlers_run_once() {
    let mut data = Pointer::To(Some(7));
    assert_eq!(run_handler(&mut data, 200), SubRequestCompletion::Run(7));
    assert_eq!(run_handler(&mut data, 200), SubRequestCompletion::Answer(200));
    let mut data = Pointer::<Option<u32>>::Null;
    assert_eq!(run_handler(&mut data, 200), SubRequestCompletion::Answer(NGX_ERROR));
    let mut data = Pointer::<Option<u32>>::Misaligned;
    assert_eq!(run_handler(&mut data, 200), SubRequestCompletion::Answer(NGX_ERROR));
}

#[test]
fn dropping_completion_guard_cancels_future() {
    let mut state = AsyncSubRequestState::<(), u32>::new();
    assert_eq!(state.abandon(), None);
    assert_eq!(state.poll(1), Some(Err(SubRequestError::Canceled)));
}

#[test]
fn an_awaited_subrequest_completes_once() {
    let mut state = AsyncSubRequestState::<u32, &str>::new();
    assert_eq!(state.poll("first"), None);
    assert_eq!(state.poll("second"), None);
    assert!(state.accepts_completion());
    assert_eq!(state.finish(7), Some("second"));
    assert_eq!(state.finish(8), None);
    assert_eq!(state.abandon(), None);
    assert_eq!(state.poll("third"), Some(Ok(7)));
    state.cancel();
    assert!(state.accepts_completion());

    let mut state = AsyncSubRequestState::<u32, &str>::new();
    assert_eq!(state.poll("first"), None);
    state.cancel();
    assert!(!state.accepts_completion());
    assert_eq!(state.complete(Ok(7)), None);
    assert_eq!(state.poll("second"), None);
}

#[test]
fn subrequest_errors_have_their_texts() {
    for (error, text) in [
        (SubRequestError::Alloc, "subrequest allocation failed"),
        (SubRequestError::Create(-1), "subrequest creation failed with status -1"),
        (SubRequestError::Create(404), "subrequest creation failed with status 404"),
        (SubRequestError::from(RequestError::NullRequest), "invalid request: NullRequest"),
        (SubRequestError::Canceled, "subrequest canceled"),
    ] {
        assert_eq!(error.message(), text);
    }
}
