use ota_agent::manifest::{
    check_status, check_update, is_success, manifest_fields, parse_manifest, read_manifest,
    FetchError, Update, UpdateJson, MANIFEST_BUFFER_SIZE,
};
use ota_agent::version::{SemanticVersion, VersionError};

fn fields(version: &str, link: &str) -> UpdateJson {
    UpdateJson { version: version.to_string(), link: link.to_string() }
}

#[test]
fn manifest_document_round_trip() {
    let document = br#"{"version":"1.2.3","link":"http://x/y"}"#;
    let update = check_update(200, document).expect("a manifest");
    assert_eq!(update.version(), &SemanticVersion::new(1, 2, 3));
    assert_eq!(update.link(), "http://x/y");
    assert_eq!(Ok(update), Update::new(fields("1.2.3", "http://x/y")));
}

#[test]
fn manifest_members_may_come_in_any_order_and_layout() {
    let document = b"\n{\n  \"link\" : \"https://host/fw.bin\",\n  \"version\" : \"0.2.0-rc.1+7\"\n}\n";
    let update = read_manifest(document).expect("a manifest");
    assert_eq!(update.version().major(), 0);
    assert_eq!(update.version().minor(), 2);
    assert_eq!(update.version().patch(), 0);
    assert_eq!(update.version().pre(), "rc.1");
    assert_eq!(update.version().build(), "7");
    assert_eq!(update.link(), "https://host/fw.bin");
}

#[test]
fn other_members_are_not_interpreted() {
    let document = br#"{"size":10000,"version":"3.0.0","notes":["a","b"],"link":"l","sha":null}"#;
    let update = parse_manifest(document).expect("a manifest");
    assert_eq!(update.version(), &SemanticVersion::new(3, 0, 0));
    assert_eq!(update.into_link(), "l");
}

#[test]
fn escapes_in_strings_are_resolved() {
    let document = br#"{"version":"1.0.0","link":"http:\/\/host\/fw.bin"}"#;
    let update = parse_manifest(document).expect("a manifest");
    assert_eq!(update.link(), "http://host/fw.bin");
}

#[test]
fn redirect_status_is_refused_before_the_body() {
    let document = br#"{"version":"1.2.3","link":"http://x/y"}"#;
    assert_eq!(check_update(301, document), Err(FetchError::UnexpectedStatus(301)));
    assert_eq!(check_update(301, b""), Err(FetchError::UnexpectedStatus(301)));
    assert_eq!(check_update(301, b"not json"), Err(FetchError::UnexpectedStatus(301)));
    assert_eq!(check_status(301), Err(FetchError::UnexpectedStatus(301)));
}

#[test]
fn success_range_is_200_to_299() {
    assert!(!is_success(0));
    assert!(!is_success(199));
    assert!(is_success(200));
    assert!(is_success(204));
    assert!(is_success(299));
    assert!(!is_success(300));
    assert!(!is_success(404));
    assert!(!is_success(u16::MAX));
    assert_eq!(check_status(200), Ok(()));
    assert_eq!(check_status(299), Ok(()));
    assert_eq!(check_status(199), Err(FetchError::UnexpectedStatus(199)));
    assert_eq!(check_status(300), Err(FetchError::UnexpectedStatus(300)));
    assert_eq!(check_status(500), Err(FetchError::UnexpectedStatus(500)));
}

#[test]
fn empty_body_is_an_absent_manifest() {
    assert_eq!(check_update(200, b""), Err(FetchError::EmptyBody));
    assert_eq!(check_update(299, &[]), Err(FetchError::EmptyBody));
    assert_eq!(read_manifest(&[]), Err(FetchError::EmptyBody));
}

#[test]
fn malformed_documents_are_parse_errors() {
    let documents: [&[u8]; 12] = [
        b" ",
        b"not json",
        b"{",
        br#"{"version":"1.2.3","link":"http://x/y""#,
        br#"{"version":"1.2.3","link":"http://x/y"} trailing"#,
        br#"{"version":"1.2.3"}"#,
        br#"{"link":"http://x/y"}"#,
        br#"{"version":1,"link":"http://x/y"}"#,
        br#"{"version":"1.2.3","link":null}"#,
        br#"["1.2.3","http://x/y"]"#,
        br#""1.2.3""#,
        b"{\"version\":\"1.2.3\",\"link\":\"\xff\"}",
    ];
    for document in documents {
        assert_eq!(check_update(200, document), Err(FetchError::ParseError), "{:?}", document);
        assert_eq!(read_manifest(document), Err(FetchError::ParseError), "{:?}", document);
        assert_eq!(parse_manifest(document), Err(FetchError::ParseError), "{:?}", document);
    }
    assert_eq!(parse_manifest(b""), Err(FetchError::ParseError));
}

#[test]
fn invalid_version_is_a_parse_error() {
    for text in ["", "1.2", "latest", "1.2.3.4", "01.2.3", "1.2.3-"] {
        let document = format!(r#"{{"version":"{}","link":"http://x/y"}}"#, text);
        assert_eq!(check_update(200, document.as_bytes()), Err(FetchError::ParseError), "{}", text);
        assert_eq!(Update::new(fields(text, "http://x/y")), Err(VersionError::Syntax), "{}", text);
    }
}

#[test]
fn update_new_keeps_the_link_as_it_is() {
    let update = Update::new(fields("7.8.9-pre", "  any text, kept  ")).expect("a manifest");
    assert_eq!(update.version().major(), 7);
    assert_eq!(update.version().pre(), "pre");
    assert_eq!(update.link(), "  any text, kept  ");
    let empty = Update::new(fields("1.0.0", "")).expect("a manifest");
    assert_eq!(empty.link(), "");
}

#[test]
fn clones_hold_the_same_texts() {
    let json = fields("1.2.3-rc.1+5", "http://x/y");
    assert_eq!(json.clone(), json);
    let update = Update::new(json).expect("a manifest");
    let copy = update.clone();
    assert_eq!(copy, update);
    assert_eq!(copy.version().pre(), "rc.1");
    assert_eq!(copy.link(), "http://x/y");
}

#[test]
fn manifest_fields_needs_both_strings() {
    let whole: serde_json::Value =
        serde_json::from_str(r#"{"version":"1.2.3","link":"http://x/y","extra":true}"#).unwrap();
    assert_eq!(manifest_fields(&whole), Some(fields("1.2.3", "http://x/y")));
    let unchecked: serde_json::Value =
        serde_json::from_str(r#"{"version":"not checked here","link":""}"#).unwrap();
    assert_eq!(manifest_fields(&unchecked), Some(fields("not checked here", "")));
    for text in [
        r#"{"version":"1.2.3"}"#,
        r#"{"link":"http://x/y"}"#,
        r#"{"version":"1.2.3","link":7}"#,
        r#"{"version":["1.2.3"],"link":"l"}"#,
        r#"{"Version":"1.2.3","Link":"l"}"#,
        r#"{}"#,
        r#"[]"#,
        r#"null"#,
        r#""version""#,
    ] {
        let document: serde_json::Value = serde_json::from_str(text).unwrap();
        assert_eq!(manifest_fields(&document), None, "{}", text);
    }
}

fn padded_document(length: usize) -> Vec<u8> {
    let mut document = br#"{"version":"1.2.3","link":"http://x/y"}"#.to_vec();
    assert!(document.len() <= length);
    while document.len() < length {
        document.push(b' ');
    }
    document
}

#[test]
fn a_manifest_that_fills_the_buffer_is_read() {
    assert_eq!(MANIFEST_BUFFER_SIZE, 256);
    let document = padded_document(256);
    let update = check_update(200, &document).expect("a manifest");
    assert_eq!(update.version(), &SemanticVersion::new(1, 2, 3));
    assert_eq!(update.link(), "http://x/y");
}

#[test]
fn only_the_first_256_bytes_are_read() {
    let mut document = padded_document(256);
    document.extend_from_slice(b"this is past the buffer and is never looked at");
    let update = check_update(200, &document).expect("a manifest");
    assert_eq!(update.link(), "http://x/y");
    assert_eq!(parse_manifest(&document), Err(FetchError::ParseError));
}

#[test]
fn a_manifest_longer_than_the_buffer_is_cut() {
    let link = "a".repeat(300);
    let document = format!(r#"{{"version":"1.2.3","link":"{}"}}"#, link);
    assert!(parse_manifest(document.as_bytes()).is_ok());
    assert_eq!(read_manifest(document.as_bytes()), Err(FetchError::ParseError));
    assert_eq!(check_update(200, document.as_bytes()), Err(FetchError::ParseError));
}
