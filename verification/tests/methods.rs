use ngx_http::request::method::{InvalidMethod, Method};

#[test]
fn method_parses_supported_tokens() {
    let methods = [
        ("GET", Method::GET),
        ("HEAD", Method::HEAD),
        ("POST", Method::POST),
        ("PUT", Method::PUT),
        ("DELETE", Method::DELETE),
        ("MKCOL", Method::MKCOL),
        ("COPY", Method::COPY),
        ("MOVE", Method::MOVE),
        ("OPTIONS", Method::OPTIONS),
        ("PROPFIND", Method::PROPFIND),
        ("PROPPATCH", Method::PROPPATCH),
        ("LOCK", Method::LOCK),
        ("UNLOCK", Method::UNLOCK),
        ("PATCH", Method::PATCH),
        ("TRACE", Method::TRACE),
        ("CONNECT", Method::CONNECT),
    ];

    for (token, expected) in methods {
        assert_eq!(Method::try_from(token).unwrap(), expected);
    }
}

#[test]
fn method_rejects_unknown_or_lowercase_tokens() {
    assert!(Method::try_from("UNKNOWN").is_err());
    assert!(Method::try_from("get").is_err());
}

#[test]
fn method_tokens_and_native_bits_round_trip() {
    let methods = [
        (0x0002, Method::GET),
        (0x0004, Method::HEAD),
        (0x0008, Method::POST),
        (0x0010, Method::PUT),
        (0x0020, Method::DELETE),
        (0x0040, Method::MKCOL),
        (0x0080, Method::COPY),
        (0x0100, Method::MOVE),
        (0x0200, Method::OPTIONS),
        (0x0400, Method::PROPFIND),
        (0x0800, Method::PROPPATCH),
        (0x1000, Method::LOCK),
        (0x2000, Method::UNLOCK),
        (0x4000, Method::PATCH),
        (0x8000, Method::TRACE),
        (0x10000, Method::CONNECT),
    ];
    for (index, (bit, method)) in methods.into_iter().enumerate() {
        assert_eq!(Method::from_ngx(bit), method);
        assert_eq!(Method::from_bytes(method.as_str().as_bytes()), Ok(method));
        assert_eq!(method.as_str().parse::<Method>(), Ok(method));
        assert!(method.eq_str(method.as_str()));
        for (_, other) in &methods[..index] {
            assert!(!method.eq_str(other.as_str()));
        }
    }
    assert_eq!(Method::from_ngx(1).as_str(), "UNKNOWN");
    assert_eq!(Method::from_ngx(6).as_str(), "UNKNOWN");
    assert_eq!(Method::from_bytes(b"GETS"), Err(InvalidMethod));
    assert_eq!(InvalidMethod::new().message(), "invalid HTTP method");
}
