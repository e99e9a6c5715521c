use ngx_http::native::NginxCall;
use ngx_http::request::client_body::ClientBodyReadStatus;
use ngx_http::request::view::RequestRefMut;
use ngx_http::status::{HTTPStatus, Status, NGX_AGAIN, NGX_DONE, NGX_ERROR, NGX_OK};

#[test]
fn client_body_read_status_preserves_native_return_classes() {
    assert_eq!(ClientBodyReadStatus::from_raw(NGX_OK), ClientBodyReadStatus::Completed);
    assert_eq!(ClientBodyReadStatus::from_raw(NGX_AGAIN), ClientBodyReadStatus::Again);
    assert_eq!(ClientBodyReadStatus::from_raw(NGX_DONE), ClientBodyReadStatus::Done);
    assert_eq!(
        ClientBodyReadStatus::from_raw(400),
        ClientBodyReadStatus::Special(HTTPStatus(400))
    );
    assert_eq!(
        ClientBodyReadStatus::from_raw(NGX_ERROR),
        ClientBodyReadStatus::Error(Status(NGX_ERROR))
    );
}

#[test]
fn client_body_read_status_keeps_the_code() {
    for code in [NGX_OK, NGX_AGAIN, NGX_DONE, NGX_ERROR, -5, 7, 200, 299, 300, 413, 599, 600, 9000] {
        let status = ClientBodyReadStatus::from_raw(code);
        assert_eq!(status.raw(), code);
        assert_eq!(
            matches!(status, ClientBodyReadStatus::Special(_)),
            (300..600).contains(&code)
        );
    }
}

#[test]
fn discarding_a_body_is_left_to_nginx() {
    let mut request = RequestRefMut { raw: 0x1000 };
    assert_eq!(
        request.discard_request_body(),
        NginxCall::DiscardRequestBody { request: 0x1000 }
    );
}
