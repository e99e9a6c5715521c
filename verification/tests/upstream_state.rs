use ngx_http::native::{NativeString, Pointer};
use ngx_http::upstream::state::{
    NativeStateArray, NativeUpstreamState, UpstreamState, UpstreamStateError, UpstreamStates,
    UPSTREAM_STATE_SIZE,
};

fn zeroed_state() -> UpstreamState {
    UpstreamState(NativeUpstreamState::zeroed())
}

#[test]
fn peer_is_none_for_a_null_pointer() {
    assert!(zeroed_state().peer().unwrap().is_none());
}

#[test]
fn peer_borrows_the_nginx_string() {
    let bytes = b"10.0.0.1:8080";
    let mut state = zeroed_state();
    state.0.peer = Pointer::To(NativeString { len: bytes.len(), data: Some(bytes.to_vec()) });

    assert_eq!(state.peer().unwrap(), Some(bytes.as_slice()));
}

#[test]
fn peer_rejects_missing_or_misaligned_string_storage() {
    let mut state = zeroed_state();
    state.0.peer = Pointer::To(NativeString { len: 1, data: None });
    assert!(matches!(state.peer(), Err(UpstreamStateError::MissingPeerData)));

    state.0.peer = Pointer::Misaligned;
    assert!(matches!(state.peer(), Err(UpstreamStateError::MisalignedPeer)));
}

#[test]
fn peer_string_without_bytes_is_empty() {
    let mut state = zeroed_state();
    state.0.peer = Pointer::To(NativeString { len: 0, data: None });
    assert_eq!(state.peer().unwrap(), Some(b"".as_slice()));
}

#[test]
fn accessors_read_the_upstream_attempt() {
    let mut state = zeroed_state();
    assert_eq!(state.status(), None);
    state.0.status = 502;
    state.0.response_time = 75;
    state.0.connect_time = 5;
    state.0.header_time = 10;
    state.0.queue_time = 1;
    state.0.bytes_sent = 1024;
    state.0.bytes_received = 4096;
    state.0.response_length = 2048;

    assert_eq!(state.status(), Some(502));
    assert_eq!(state.response_time(), 75);
    assert_eq!(state.connect_time(), 5);
    assert_eq!(state.header_time(), 10);
    assert_eq!(state.queue_time(), 1);
    assert_eq!(state.bytes_sent(), 1024);
    assert_eq!(state.bytes_received(), 4096);
    assert_eq!(state.response_length(), 2048);

    state.0.status = usize::from(u16::MAX) + 1;
    assert_eq!(state.status(), None);

    state.0.response_time = usize::MAX;
    state.0.connect_time = usize::MAX;
    state.0.header_time = usize::MAX;
    state.0.queue_time = usize::MAX;
    state.0.bytes_sent = -1;
    state.0.bytes_received = -1;
    state.0.response_length = -1;
    assert_eq!(state.response_time(), usize::MAX);
    assert_eq!(state.connect_time(), usize::MAX);
    assert_eq!(state.header_time(), usize::MAX);
    assert_eq!(state.queue_time(), usize::MAX);
    assert_eq!(state.bytes_sent(), -1);
    assert_eq!(state.bytes_received(), -1);
    assert_eq!(state.response_length(), -1);
}

#[test]
fn wrapper_preserves_the_ffi_layout() {
    assert_eq!(
        core::mem::size_of::<UpstreamState>(),
        core::mem::size_of::<NativeUpstreamState>()
    );
    assert_eq!(
        core::mem::align_of::<UpstreamState>(),
        core::mem::align_of::<NativeUpstreamState>()
    );
}

#[test]
fn upstream_states_distinguish_absent_empty_and_multiple_attempts() {
    assert!(UpstreamStates::from_raw(&Pointer::Null).unwrap().is_none());

    let empty = Pointer::To(NativeStateArray {
        elts: Pointer::Null,
        nelts: 0,
        size: UPSTREAM_STATE_SIZE,
        nalloc: 0,
    });
    let states = UpstreamStates::from_raw(&empty).unwrap().unwrap();
    assert!(states.is_empty());
    assert!(states.iter().next().is_none());

    let mut attempts = vec![zeroed_state(), zeroed_state()];
    attempts[0].0.status = 502;
    attempts[1].0.status = 503;
    let raw = Pointer::To(NativeStateArray {
        nelts: attempts.len(),
        nalloc: attempts.len(),
        elts: Pointer::To(attempts),
        size: UPSTREAM_STATE_SIZE,
    });
    let states = UpstreamStates::from_raw(&raw).unwrap().unwrap();
    assert_eq!(states.len(), 2);
    assert!(!states.is_empty());
    assert_eq!(states.get(0).unwrap().status(), Some(502));
    assert!(states.get(2).is_none());
    let mut iter = states.iter();
    assert_eq!(iter.next().unwrap().status(), Some(502));
    assert_eq!(iter.next().unwrap().status(), Some(503));
    assert!(iter.next().is_none());
}

#[test]
fn upstream_states_reject_misaligned_or_malformed_arrays() {
    assert!(matches!(
        UpstreamStates::from_raw(&Pointer::Misaligned),
        Err(UpstreamStateError::MisalignedArray)
    ));

    let wrong_size =
        Pointer::To(NativeStateArray { elts: Pointer::Null, nelts: 0, size: 1, nalloc: 0 });
    assert!(matches!(
        UpstreamStates::from_raw(&wrong_size),
        Err(UpstreamStateError::InvalidArray)
    ));

    let invalid_capacity = Pointer::To(NativeStateArray {
        elts: Pointer::Null,
        nelts: 1,
        size: UPSTREAM_STATE_SIZE,
        nalloc: 0,
    });
    assert!(matches!(
        UpstreamStates::from_raw(&invalid_capacity),
        Err(UpstreamStateError::InvalidArray)
    ));
}

#[test]
fn upstream_states_reject_missing_or_misaligned_storage() {
    for elts in [Pointer::Null, Pointer::Misaligned] {
        let raw =
            Pointer::To(NativeStateArray { elts, nelts: 1, size: UPSTREAM_STATE_SIZE, nalloc: 1 });
        assert!(matches!(UpstreamStates::from_raw(&raw), Err(UpstreamStateError::InvalidArray)));
    }
}

#[test]
fn upstream_state_errors_have_texts() {
    for (error, text) in [
        (UpstreamStateError::MisalignedArray, "upstream state array is misaligned"),
        (UpstreamStateError::InvalidArray, "upstream state array is invalid"),
        (UpstreamStateError::MissingPeerData, "upstream state peer has no data"),
        (UpstreamStateError::MisalignedPeer, "upstream state peer is misaligned"),
    ] {
        assert_eq!(error.message(), text);
    }
}
