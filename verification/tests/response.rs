use bytes::Bytes;
use conjure_runtime::progress::Progress;
use conjure_runtime::response::Input;
use conjure_runtime::response::Response;
use conjure_runtime::response::ResponseBody;
use hyper::header::HeaderMap;
use hyper::StatusCode;

#[test]
fn read_copies_what_fits_and_keeps_the_rest() {
    let mut body = ResponseBody::new();
    assert!(body.needs_input());
    assert!(body.feed(Input::Chunk(Bytes::from(vec![1u8, 2, 3, 4, 5]))).is_ok());
    let mut buf = [9u8; 3];
    assert!(matches!(body.read(&mut buf), Progress::Ready(3)));
    assert_eq!(buf, [1, 2, 3]);
    let mut wide = [9u8; 4];
    assert!(matches!(body.read(&mut wide), Progress::Ready(2)));
    assert_eq!(wide, [4, 5, 9, 9]);
    assert!(matches!(body.read(&mut wide), Progress::Pending));
}

#[test]
fn reading_after_the_end_gives_the_terminal_signal() {
    let mut body = ResponseBody::new();
    assert!(matches!(body.read_bytes(), Progress::Pending));
    assert!(body.feed(Input::Chunk(Bytes::from(vec![7u8, 8]))).is_ok());
    assert!(matches!(body.feed(Input::End), Err(Input::End)));
    match body.read_bytes() {
        Progress::Ready(Some(b)) => assert_eq!(b.to_vec(), vec![7u8, 8]),
        _ => panic!("expected a chunk"),
    }
    assert!(body.feed(Input::End).is_ok());
    assert!(matches!(body.read_bytes(), Progress::Ready(None)));
    assert!(matches!(body.read_bytes(), Progress::Ready(None)));
    let mut buf = [0u8; 4];
    assert!(matches!(body.read(&mut buf), Progress::Ready(0)));
    assert!(!body.needs_input());
}

#[test]
fn response_hands_out_its_parts() {
    let mut body = ResponseBody::new();
    assert!(body.feed(Input::Chunk(Bytes::from(vec![42u8]))).is_ok());
    let mut headers = HeaderMap::new();
    headers.insert("retry-after", "1".parse().unwrap());
    let response = Response::new(StatusCode::TOO_MANY_REQUESTS, headers, body);
    assert_eq!(response.status().as_u16(), 429);
    assert_eq!(response.headers().get("retry-after").unwrap().as_bytes(), b"1");
    let mut body = response.into_body();
    match body.read_bytes() {
        Progress::Ready(Some(b)) => assert_eq!(b.to_vec(), vec![42u8]),
        _ => panic!("expected a chunk"),
    }
}
