//! Content protocol client: the display descriptor, then the image it names.
use vstd::prelude::*;
use crate::http;

verus! {

/// Path of the descriptor endpoint, below the service's base address.
pub const DISPLAY_PATH: &'static str = "api/display";

/// Header that carries the device's identifier on the descriptor request.
pub const ACCESS_TOKEN_HEADER: &'static str = "Access-Token";

/// Header and value that ask for the image in the lossless bitmap codec.
pub const ACCEPT_HEADER: &'static str = "Accept";

pub const IMAGE_MEDIA_TYPE: &'static str = "image/qoi";

/// How fetching the content failed.
#[derive(Debug, Clone, Copy, PartialEq, Eq, Structural)]
pub enum Error {
    /// The transport failed: connection, deadline or protocol.
    Fetch,
    /// The server answered with a status outside 2xx.
    UnexpectedStatus(u16),
    /// The image bytes are not a well-formed bitmap stream.
    Image,
    /// The descriptor is not the JSON object expected.
    Decode,
}

/// The content error that a transport error becomes.
pub open spec fn from_http(e: http::Error) -> Error {
    match e {
        http::Error::StatusCode(code) => Error::UnexpectedStatus(code),
        _ => Error::Fetch,
    }
}

impl From<http::Error> for Error {
    fn from(err: http::Error) -> (r: Self)
        ensures
            r == from_http(err),
    {
        match err {
            http::Error::ConnectionReset | http::Error::RequestTimedOut | http::Error::Http => {
                Error::Fetch
            },
            http::Error::StatusCode(status_code) => Error::UnexpectedStatus(status_code),
        }
    }
}

impl vstd::std_specs::convert::FromSpecImpl<http::Error> for Error {
    open spec fn obeys_from_spec() -> bool {
        true
    }

    open spec fn from_spec(err: http::Error) -> Error {
        from_http(err)
    }
}

/// What the descriptor says: where the next image is, and how many seconds
/// to wait before the next cycle.
pub struct ApiResponse {
    pub image_url: String,
    pub refresh_rate: u64,
}

/// The outcome of the descriptor fetch. `parsed` is what the transport
/// delivered, already read as a descriptor: `None` where the body was not
/// one (a field missing or malformed).
pub fn descriptor_from_response(parsed: Result<Option<ApiResponse>, http::Error>) -> (r: Result<
    ApiResponse,
    Error,
>)
    ensures
        match parsed {
            Err(e) => r == Err::<ApiResponse, Error>(from_http(e)),
            Ok(None) => r == Err::<ApiResponse, Error>(Error::Decode),
            Ok(Some(d)) => r == Ok::<ApiResponse, Error>(d),
        },
{
    match parsed {
        Err(e) => Err(Error::from(e)),
        Ok(None) => Err(Error::Decode),
        Ok(Some(d)) => Ok(d),
    }
}

/// The four bytes that open every bitmap stream: "qoif".
pub open spec fn qoi_magic() -> Seq<u8> {
    seq![0x71u8, 0x6fu8, 0x69u8, 0x66u8]
}

/// The eight bytes that close every bitmap stream.
pub open spec fn qoi_end() -> Seq<u8> {
    seq![0u8, 0u8, 0u8, 0u8, 0u8, 0u8, 0u8, 1u8]
}

/// A stream with a 14-byte header that starts with the magic, and the end
/// marker after it.
pub open spec fn is_qoi(b: Seq<u8>) -> bool {
    &&& b.len() >= 22
    &&& b.subrange(0, 4) == qoi_magic()
    &&& b.subrange(b.len() - 8, b.len() as int) == qoi_end()
}

/// The big-endian 32-bit integer at `at`.
pub open spec fn be32(b: Seq<u8>, at: int) -> u32 {
    (b[at] as int * 0x1000000 + b[at + 1] as int * 0x10000 + b[at + 2] as int * 0x100 + b[at
        + 3] as int) as u32
}

/// Relies on tinyqoi::Qoi::new, which accepts exactly the streams of
/// `is_qoi` and reads the width and height from header bytes 4..8 and 8..12.
#[verifier::external_body]
fn qoi_size(data: &[u8]) -> (r: Option<(u32, u32)>)
    ensures
        r.is_some() == is_qoi(data@),
        r.is_some() ==> r.unwrap() == (be32(data@, 4), be32(data@, 8)),
{
    match tinyqoi::Qoi::new(data) {
        Ok(q) => {
            let s = embedded_graphics::geometry::OriginDimensions::size(&q);
            Some((s.width, s.height))
        },
        Err(_) => None,
    }
}

/// Size of a decodable image.
#[derive(Debug, Clone, Copy, PartialEq, Eq, Structural)]
pub struct ImageInfo {
    pub width: u32,
    pub height: u32,
}

/// The outcome of the image fetch: the response bytes wrapped as a bitmap
/// stream, or the classified failure.
pub fn image_from_response(resp: Result<&[u8], http::Error>) -> (r: Result<ImageInfo, Error>)
    ensures
        match resp {
            Err(e) => r == Err::<ImageInfo, Error>(from_http(e)),
            Ok(b) => if is_qoi(b@) {
                r == Ok::<ImageInfo, Error>(ImageInfo { width: be32(b@, 4), height: be32(b@, 8) })
            } else {
                r == Err::<ImageInfo, Error>(Error::Image)
            },
        },
{
    match resp {
        Err(e) => Err(Error::from(e)),
        Ok(b) => match qoi_size(b) {
            Some((width, height)) => Ok(ImageInfo { width, height }),
            None => Err(Error::Image),
        },
    }
}

} // verus!
