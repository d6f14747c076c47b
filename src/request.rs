use vstd::prelude::*;
use vstd::string::StringSliceAdditionalSpecFns;
use bytes::BytesMut;

verus! {

#[verifier::external_type_specification]
#[verifier::external_body]
pub struct ExBytesMut(BytesMut);

/// The bytes a `BytesMut` holds, front to back.
pub uninterp spec fn buffered(b: BytesMut) -> Seq<u8>;

/// Relies on `BytesMut::new`: the new buffer is empty.
pub assume_specification[ BytesMut::new ]() -> (r: BytesMut)
    ensures
        buffered(r) == Seq::<u8>::empty(),
;

/// Relies on `BufMut::put` as `BytesMut` implements it for a byte slice:
/// the slice is appended after what the buffer already holds. Growth past
/// `isize::MAX` bytes panics, so it is left out.
#[verifier::external_body]
fn append(buf: &mut BytesMut, src: &[u8])
    requires
        buffered(*old(buf)).len() + src@.len() <= isize::MAX,
    ensures
        buffered(*final(buf)) == buffered(*old(buf)) + src@,
{
    bytes::BufMut::put(buf, src)
}

/// Request line opening: method and the space before the path.
pub const REQUEST_HEAD: &'static str = "GET ";

/// Protocol version and the fixed headers that close the request.
pub const REQUEST_TAIL: &'static str = " HTTP/1.1\r\nHost: localhost\r\nConnection: close\r\n\r\n";

/// The bytes of a GET request for `path` that asks the server to close the
/// connection once it has answered.
pub open spec fn request_of(path: Seq<u8>) -> Seq<u8> {
    REQUEST_HEAD.spec_bytes() + path + REQUEST_TAIL.spec_bytes()
}

/// Builds the GET request for `path`.
pub fn get_req(path: &str) -> (r: BytesMut)
    requires
        REQUEST_HEAD.spec_bytes().len() + path.spec_bytes().len()
            + REQUEST_TAIL.spec_bytes().len() <= isize::MAX,
    ensures
        buffered(r) == request_of(path.spec_bytes()),
{
    let mut buffer = BytesMut::new();
    append(&mut buffer, REQUEST_HEAD.as_bytes());
    append(&mut buffer, path.as_bytes());
    append(&mut buffer, REQUEST_TAIL.as_bytes());
    buffer
}

} // verus!
