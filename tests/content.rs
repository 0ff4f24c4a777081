use rudo::http;
use rudo::trmnl::{descriptor_from_response, image_from_response, ApiResponse, Error, ImageInfo};

fn qoi_bytes(width: u32, height: u32) -> Vec<u8> {
    let mut v = b"qoif".to_vec();
    v.extend_from_slice(&width.to_be_bytes());
    v.extend_from_slice(&height.to_be_bytes());
    v.push(3);
    v.push(0);
    v.extend_from_slice(&[0, 0, 0, 0, 0, 0, 0, 1]);
    v
}

#[test]
fn transport_errors_map_to_content_errors() {
    assert_eq!(Error::from(http::Error::ConnectionReset), Error::Fetch);
    assert_eq!(Error::from(http::Error::RequestTimedOut), Error::Fetch);
    assert_eq!(Error::from(http::Error::Http), Error::Fetch);
    assert_eq!(Error::from(http::Error::StatusCode(404)), Error::UnexpectedStatus(404));
}

#[test]
fn descriptor_accepted() {
    let d = ApiResponse { image_url: "http://x/y.qoi".to_string(), refresh_rate: 900 };
    let r = descriptor_from_response(Ok(Some(d))).ok().unwrap();
    assert_eq!(r.image_url, "http://x/y.qoi");
    assert_eq!(r.refresh_rate, 900);
}

#[test]
fn descriptor_unreadable_is_decode_error() {
    assert_eq!(descriptor_from_response(Ok(None)).err(), Some(Error::Decode));
    assert_eq!(
        descriptor_from_response(Err(http::Error::RequestTimedOut)).err(),
        Some(Error::Fetch)
    );
}

#[test]
fn image_header_read() {
    let b = qoi_bytes(800, 480);
    assert_eq!(image_from_response(Ok(&b)), Ok(ImageInfo { width: 800, height: 480 }));
}

#[test]
fn image_bad_magic_or_end() {
    let mut b = qoi_bytes(2, 2);
    b[0] = b'x';
    assert_eq!(image_from_response(Ok(&b)), Err(Error::Image));
    let mut c = qoi_bytes(2, 2);
    let n = c.len();
    c[n - 1] = 0;
    assert_eq!(image_from_response(Ok(&c)), Err(Error::Image));
    assert_eq!(image_from_response(Ok(&[0u8; 10])), Err(Error::Image));
}

#[test]
fn image_status_preserved() {
    assert_eq!(
        image_from_response(Err(http::Error::StatusCode(500))),
        Err(Error::UnexpectedStatus(500))
    );
}
