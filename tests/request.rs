use epoll_reactor::request::get_req;

#[test]
fn request_for_path() {
    let req = get_req("/3000/request-7");
    assert_eq!(
        &req[..],
        &b"GET /3000/request-7 HTTP/1.1\r\nHost: localhost\r\nConnection: close\r\n\r\n"[..]
    );
}

#[test]
fn request_for_empty_path() {
    let req = get_req("");
    assert_eq!(&req[..], &b"GET  HTTP/1.1\r\nHost: localhost\r\nConnection: close\r\n\r\n"[..]);
}
