use push_notifications::error::Error;
use push_notifications::response::decode_response;

#[test]
fn non_json_body_fails_with_decode_error() {
    let r = decode_response("<html>502 Bad Gateway</html>".to_string());
    assert_eq!(r.map(|_| ()), Err(Error::Decode));
}

#[test]
fn empty_body_fails_with_decode_error() {
    let r = decode_response(String::new());
    assert_eq!(r.map(|_| ()), Err(Error::Decode));
}

#[test]
fn json_body_is_returned_unchanged() {
    let body = "{\"status_code\":200,\"response\":null}";
    let resp = decode_response(body.to_string()).unwrap();
    assert_eq!(resp.body_text(), body);
}

#[test]
fn any_json_document_is_accepted() {
    assert!(decode_response("[1,2,3]".to_string()).is_ok());
    assert!(decode_response("\"ok\"".to_string()).is_ok());
    assert!(decode_response("null".to_string()).is_ok());
}
