use fetch_happen::error::decimal_text;
use fetch_happen::response::decoded;
use fetch_happen::{BytesReply, Error, Headers, Response, TextReply};
use std::collections::HashMap;

fn pair(name: &str, value: &str) -> (String, String) {
    (name.to_string(), value.to_string())
}

fn with_status(status: u16) -> Response<u8> {
    Response::new(status, &vec![pair("Content-Type", "application/json")], 7)
}

#[test]
fn ok_covers_200_to_299() {
    assert!(with_status(299).ok());
    assert!(!with_status(300).ok());
    assert!(!with_status(199).ok());
    assert!(with_status(200).ok());
    assert!(with_status(204).ok());
    assert!(!with_status(0).ok());
    assert!(!with_status(404).ok());
    assert!(!with_status(65535).ok());
}

#[test]
fn status_is_reported_as_given() {
    assert_eq!(with_status(418).status(), 418);
    assert_eq!(with_status(0).status(), 0);
}

#[test]
fn handle_is_carried() {
    let response = Response::new(200, &Vec::new(), "stream".to_string());
    assert_eq!(response.handle(), "stream");
    let kept = response.error_for_status().unwrap();
    assert_eq!(kept.handle(), "stream");
}

#[test]
fn error_for_status_on_404() {
    let outcome = with_status(404).error_for_status();
    assert_eq!(outcome, Err(Error::HttpError(404, "HTTP Error 404".to_string())));
}

#[test]
fn error_for_status_on_200_is_identity() {
    let outcome = with_status(200).error_for_status().unwrap();
    assert_eq!(outcome, with_status(200));
    assert_eq!(outcome.status(), 200);
    assert_eq!(outcome.header("content-type"), Ok(Some("application/json".to_string())));
}

#[test]
fn error_for_status_at_the_edges() {
    assert!(with_status(299).error_for_status().is_ok());
    assert_eq!(
        with_status(300).error_for_status(),
        Err(Error::HttpError(300, "HTTP Error 300".to_string()))
    );
    assert_eq!(
        with_status(199).error_for_status(),
        Err(Error::HttpError(199, "HTTP Error 199".to_string()))
    );
    assert_eq!(
        with_status(0).error_for_status(),
        Err(Error::HttpError(0, "HTTP Error 0".to_string()))
    );
}

#[test]
fn status_failure_text() {
    assert_eq!(Error::for_status(500), Error::HttpError(500, "HTTP Error 500".to_string()));
    assert_eq!(Error::for_status(7), Error::HttpError(7, "HTTP Error 7".to_string()));
}

#[test]
fn decimal_text_of_edge_values() {
    assert_eq!(decimal_text(0), "0");
    assert_eq!(decimal_text(9), "9");
    assert_eq!(decimal_text(10), "10");
    assert_eq!(decimal_text(101), "101");
    assert_eq!(decimal_text(4096), "4096");
    assert_eq!(decimal_text(65535), "65535");
}

#[test]
fn response_header_lookup() {
    let response = Response::new(
        200,
        &vec![pair("Content-Length", "12"), pair("X-A", "1"), pair("x-a", "2")],
        (),
    );
    assert_eq!(response.header("content-length"), Ok(Some("12".to_string())));
    assert_eq!(response.header("X-A"), Ok(Some("2".to_string())));
    assert_eq!(response.header("X-B"), Ok(None));
    assert_eq!(response.header(""), Ok(None));
}

#[test]
fn text_returns_the_body() {
    let outcome = with_status(200).text(TextReply::Text("héllo".to_string()));
    assert_eq!(outcome, Ok("héllo".to_string()));
}

#[test]
fn text_surfaces_host_failures() {
    let failed = with_status(200).text(TextReply::Failed("body stream already read".to_string()));
    assert_eq!(failed, Err(Error::JsError("body stream already read".to_string())));
    let foreign = with_status(200).text(TextReply::NotText);
    assert_eq!(foreign, Err(Error::JsError("Failed to convert to string".to_string())));
}

#[test]
fn bytes_returns_the_body() {
    let outcome = with_status(200).bytes(BytesReply::Bytes(vec![0, 159, 146, 150, 255]));
    assert_eq!(outcome, Ok(vec![0, 159, 146, 150, 255]));
    let empty = with_status(200).bytes(BytesReply::Bytes(Vec::new()));
    assert_eq!(empty, Ok(Vec::new()));
}

#[test]
fn bytes_surfaces_host_failures() {
    let outcome = with_status(200).bytes(BytesReply::Failed("aborted".to_string()));
    assert_eq!(outcome, Err(Error::JsError("aborted".to_string())));
}

#[test]
fn json_value_decodes_a_branch() {
    let body = "{\"name\":\"master\",\"commit\":{\"sha\":\"abc\",\"url\":\"u\"}}";
    let value = with_status(200).json_value(TextReply::Text(body.to_string())).unwrap();
    let mut commit = serde_json::Map::new();
    commit.insert("sha".to_string(), serde_json::Value::from("abc"));
    commit.insert("url".to_string(), serde_json::Value::from("u"));
    let mut branch = serde_json::Map::new();
    branch.insert("name".to_string(), serde_json::Value::from("master"));
    branch.insert("commit".to_string(), serde_json::Value::Object(commit));
    assert_eq!(value, serde_json::Value::Object(branch));
    assert_eq!(value["name"], "master");
}

#[test]
fn json_decodes_into_a_caller_shape() {
    let body = "{\"name\":\"master\",\"commit\":{\"sha\":\"abc\",\"url\":\"u\"}}";
    let branch: HashMap<String, serde_json::Value> = with_status(200)
        .json(TextReply::Text(body.to_string()), |text: String| {
            serde_json::from_str(&text).map_err(|err| err.to_string())
        })
        .unwrap();
    assert_eq!(branch["name"], "master");
    assert_eq!(branch["commit"]["sha"], "abc");
}

#[test]
fn json_rejects_a_shape_mismatch() {
    let outcome: Result<Vec<u8>, Error> = with_status(200)
        .json(TextReply::Text("{\"a\":1}".to_string()), |text: String| {
            serde_json::from_str(&text).map_err(|err| err.to_string())
        });
    assert_eq!(
        outcome,
        Err(Error::JsonError(
            "invalid type: map, expected a sequence at line 1 column 0".to_string()
        ))
    );
}

#[test]
fn json_value_rejects_invalid_text() {
    let outcome = with_status(200).json_value(TextReply::Text("not json".to_string()));
    assert_eq!(
        outcome,
        Err(Error::JsonError("expected ident at line 1 column 2".to_string()))
    );
    let empty = with_status(200).json_value(TextReply::Text(String::new()));
    assert_eq!(
        empty,
        Err(Error::JsonError("EOF while parsing a value at line 1 column 0".to_string()))
    );
}

#[test]
fn json_does_not_decode_an_unread_body() {
    let outcome: Result<u8, Error> = with_status(200)
        .json(TextReply::Failed("network error".to_string()), |_text: String| {
            panic!("the decoder ran without a body")
        });
    assert_eq!(outcome, Err(Error::JsError("network error".to_string())));
    let value = with_status(200).json_value(TextReply::NotText);
    assert_eq!(value, Err(Error::JsError("Failed to convert to string".to_string())));
}

#[test]
fn decoded_maps_the_decoder_failure() {
    assert_eq!(decoded(Ok::<u8, String>(7)), Ok(7));
    assert_eq!(
        decoded(Err::<u8, String>("bad".to_string())),
        Err(Error::JsonError("bad".to_string()))
    );
}

#[test]
fn headers_collection_round_trip() {
    let mut headers = Headers::new();
    assert_eq!(headers.len(), 0);
    assert_eq!(headers.get("a"), None);
    headers.insert("Accept", "a");
    headers.insert("Host", "h");
    headers.insert("ACCEPT", "b");
    assert_eq!(headers.len(), 2);
    assert_eq!(headers.get("accept"), Some(&"b".to_string()));
    headers.extend(&vec![pair("host", "i"), pair("Via", "v")]);
    assert_eq!(
        headers.to_vec(),
        vec![pair("ACCEPT", "b"), pair("host", "i"), pair("Via", "v")]
    );
}
