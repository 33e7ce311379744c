use web0::headers::Headers;
use web0::pixels::PixelBuffer;
use web0::resource::{body_class, BodyClass, Kind, Resource};
use web0::response::{RawResponse, TransportError};

fn response(status: u16, content_type: Option<&str>, bytes: Vec<u8>) -> RawResponse {
    let mut headers = Headers::new();
    if let Some(value) = content_type {
        headers.insert("Content-Type", value.to_owned());
    }
    RawResponse {
        url: "http://x/resource".to_owned(),
        status,
        status_text: "status text".to_owned(),
        headers,
        bytes,
    }
}

fn png(width: u32, height: u32) -> Vec<u8> {
    let mut rgba = Vec::new();
    for i in 0..(width * height) {
        rgba.extend_from_slice(&[(i % 251) as u8, 7, 200, 255]);
    }
    let mut encoded = Vec::new();
    image::codecs::png::PngEncoder::new(&mut encoded)
        .encode(&rgba, width, height, image::ColorType::Rgba8)
        .expect("encoding a small image");
    encoded
}

#[test]
fn png_under_image_header_is_an_image_of_the_decoded_size() {
    let resource = Resource::from_response(Ok(response(200, Some("image/png"), png(3, 2))))
        .expect("a delivered response is a resource");
    match &resource.kind {
        Kind::Image(buffer) => {
            assert_eq!(buffer.width(), 3);
            assert_eq!(buffer.height(), 2);
            assert_eq!(buffer.rgba().len(), 4 * 3 * 2);
            assert_eq!(&buffer.rgba()[0..8], &[0, 7, 200, 255, 1, 7, 200, 255]);
        }
        _ => panic!("expected an image"),
    }
    assert!(resource.image().is_some());
    assert!(resource.text().is_none());
}

#[test]
fn corrupted_bytes_under_image_header_are_opaque_not_an_error() {
    let mut bytes = png(3, 2);
    bytes.truncate(20);
    let result = Resource::from_response(Ok(response(200, Some("image/png"), bytes)));
    let resource = result.expect("a decode failure is no error");
    assert!(matches!(resource.kind, Kind::Opaque));
    assert!(resource.image().is_none());
    assert!(resource.text().is_none());
}

#[test]
fn garbage_under_image_header_is_opaque() {
    let result = Resource::from_response(Ok(response(200, Some("image/jpeg"), b"hello".to_vec())));
    assert!(matches!(result.expect("still a resource").kind, Kind::Opaque));
}

#[test]
fn the_image_format_is_read_from_the_bytes_not_the_header() {
    let result = Resource::from_response(Ok(response(200, Some("image/jpeg"), png(1, 1))));
    match result.expect("a resource").kind {
        Kind::Image(buffer) => assert_eq!((buffer.width(), buffer.height()), (1, 1)),
        _ => panic!("expected an image"),
    }
}

#[test]
fn not_found_with_text_body_is_a_text_resource() {
    let result =
        Resource::from_response(Ok(response(404, Some("text/plain"), b"not found".to_vec())));
    let resource = result.expect("an HTTP error status is not a failure");
    assert_eq!(resource.status, 404);
    match &resource.kind {
        Kind::Text(text) => assert_eq!(text, "not found"),
        _ => panic!("expected text"),
    }
    assert_eq!(resource.text().map(|t| t.as_str()), Some("not found"));
}

#[test]
fn resource_carries_the_response_fields() {
    let raw = response(201, Some("text/html; charset=utf-8"), b"<p>hi</p>".to_vec());
    let resource = Resource::from_response(Ok(raw)).expect("a resource");
    assert_eq!(resource.url, "http://x/resource");
    assert_eq!(resource.status, 201);
    assert_eq!(resource.status_text, "status text");
    assert_eq!(resource.bytes, b"<p>hi</p>".to_vec());
    assert_eq!(resource.byte_len(), 9);
    assert_eq!(resource.content_type().map(|v| v.as_str()), Some("text/html; charset=utf-8"));
    assert_eq!(resource.headers.len(), 1);
}

#[test]
fn missing_content_type_is_opaque() {
    let resource =
        Resource::from_response(Ok(response(200, None, b"hello".to_vec()))).expect("a resource");
    assert!(matches!(resource.kind, Kind::Opaque));
    assert!(resource.content_type().is_none());
}

#[test]
fn content_type_dispatch_ignores_letter_case() {
    let resource = Resource::from_response(Ok(response(200, Some("IMAGE/PNG"), png(2, 2))))
        .expect("a resource");
    assert!(matches!(resource.kind, Kind::Image(_)));
}

#[test]
fn body_class_follows_the_content_type_prefix() {
    let mut headers = Headers::new();
    assert_eq!(body_class(&headers), BodyClass::Opaque);
    headers.insert("content-type", "image/".to_owned());
    assert_eq!(body_class(&headers), BodyClass::Image);
    headers.insert("content-type", "Image/Svg+xml".to_owned());
    assert_eq!(body_class(&headers), BodyClass::Image);
    headers.insert("content-type", "image".to_owned());
    assert_eq!(body_class(&headers), BodyClass::Text);
    headers.insert("content-type", "text/image/png".to_owned());
    assert_eq!(body_class(&headers), BodyClass::Text);
    headers.insert("content-type", "".to_owned());
    assert_eq!(body_class(&headers), BodyClass::Text);
}

#[test]
fn invalid_utf8_is_replaced_not_refused() {
    let bytes = vec![b'a', 0xff, b'b'];
    let resource =
        Resource::from_response(Ok(response(200, Some("text/plain"), bytes))).expect("a resource");
    match &resource.kind {
        Kind::Text(text) => assert_eq!(text, "a\u{fffd}b"),
        _ => panic!("expected text"),
    }
}

#[test]
fn valid_utf8_is_read_as_it_is() {
    let bytes = "grüße, 世界".as_bytes().to_vec();
    let resource =
        Resource::from_response(Ok(response(200, Some("text/plain"), bytes))).expect("a resource");
    assert_eq!(resource.text().map(|t| t.as_str()), Some("grüße, 世界"));
}

#[test]
fn empty_text_body_is_empty_text() {
    let resource = Resource::from_response(Ok(response(204, Some("text/plain"), Vec::new())))
        .expect("a resource");
    assert_eq!(resource.text().map(|t| t.as_str()), Some(""));
}

#[test]
fn transport_failure_gives_its_message() {
    let result =
        Resource::from_response(Err(TransportError::Failed("connect refused".to_owned())));
    match result {
        Err(message) => assert_eq!(message, "connect refused"),
        Ok(_) => panic!("expected an error"),
    }
}

#[test]
fn aborted_fetch_gives_a_fixed_message() {
    match Resource::from_response(Err(TransportError::Aborted)) {
        Err(message) => assert_eq!(message, "request aborted"),
        Ok(_) => panic!("expected an error"),
    }
    assert_eq!(TransportError::Aborted.message(), "request aborted");
    assert_eq!(TransportError::Failed("dns".to_owned()).message(), "dns");
}

#[test]
fn pixel_buffer_wants_four_bytes_per_pixel() {
    assert!(PixelBuffer::new(2, 3, vec![0; 24]).is_some());
    assert!(PixelBuffer::new(2, 3, vec![0; 23]).is_none());
    assert!(PixelBuffer::new(2, 3, vec![0; 25]).is_none());
    assert!(PixelBuffer::new(2, 3, vec![0; 6]).is_none());
    assert!(PixelBuffer::new(0, 5, Vec::new()).is_some());
    assert!(PixelBuffer::new(0, 5, vec![0; 4]).is_none());
    assert!(PixelBuffer::new(u32::MAX, u32::MAX, vec![0; 4]).is_none());
    let buffer = PixelBuffer::new(1, 2, vec![1, 2, 3, 4, 5, 6, 7, 8]).expect("eight bytes fit");
    assert_eq!(buffer.width(), 1);
    assert_eq!(buffer.height(), 2);
    assert_eq!(buffer.rgba(), &vec![1, 2, 3, 4, 5, 6, 7, 8]);
}

#[test]
fn decode_reads_png_and_refuses_noise() {
    let buffer = PixelBuffer::decode(&png(4, 5)).expect("a valid image");
    assert_eq!((buffer.width(), buffer.height()), (4, 5));
    assert_eq!(buffer.rgba().len(), 80);
    assert!(PixelBuffer::decode(b"no image at all").is_none());
    assert!(PixelBuffer::decode(&[]).is_none());
}

#[test]
fn kind_from_decoded_maps_failure_to_opaque() {
    assert!(matches!(Kind::from_decoded(None), Kind::Opaque));
    let buffer = PixelBuffer::new(1, 1, vec![9, 9, 9, 9]);
    assert!(matches!(Kind::from_decoded(buffer), Kind::Image(_)));
}
