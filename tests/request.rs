use img_service::config::{is_authorized, Config, Unauthorized};
use img_service::key::TransformCfg;
use img_service::request::{image_id, parse_u32, read_request, RequestError};

fn config(key: &str) -> Config {
    Config {
        raw_bucket: None,
        transformed_bucket: None,
        db_table: None,
        default_transformations: vec![TransformCfg::new(500, 500)],
        upload_ttl: 60,
        api_key: key.to_string(),
    }
}

#[test]
fn parses_numbers_like_from_str() {
    assert_eq!(parse_u32("0"), Some(0));
    assert_eq!(parse_u32("800"), Some(800));
    assert_eq!(parse_u32("+12"), Some(12));
    assert_eq!(parse_u32("007"), Some(7));
    assert_eq!(parse_u32("4294967295"), Some(u32::MAX));
    for bad in ["", "+", "-1", "12a", " 1", "4294967296", "99999999999999999999"] {
        assert_eq!(parse_u32(bad), bad.parse::<u32>().ok());
        assert_eq!(parse_u32(bad), None);
    }
}

#[test]
fn image_id_is_second_segment() {
    assert_eq!(image_id("/cat.png"), Some("cat.png".to_string()));
    assert_eq!(image_id("/cat.png/extra"), Some("cat.png".to_string()));
    assert_eq!(image_id("a/b"), Some("b".to_string()));
    assert_eq!(image_id("/"), Some(String::new()));
    assert_eq!(image_id("cat.png"), None);
    assert_eq!(image_id(""), None);
}

#[test]
fn reads_a_request() {
    let (id, cfg) = read_request("/cat.png", Some("300"), Some("200")).unwrap();
    assert_eq!(id, "cat.png");
    assert_eq!(cfg, TransformCfg::new(200, 300));
}

#[test]
fn request_errors() {
    assert_eq!(read_request("cat", Some("1"), Some("1")), Err(RequestError::MissingId));
    assert_eq!(read_request("/cat", None, Some("1")), Err(RequestError::MissingHeight));
    assert_eq!(read_request("/cat", Some("x"), None), Err(RequestError::BadHeight));
    assert_eq!(read_request("/cat", Some("1"), None), Err(RequestError::MissingWidth));
    assert_eq!(read_request("/cat", Some("1"), Some("-2")), Err(RequestError::BadWidth));
}

#[test]
fn authorization_needs_the_exact_key() {
    let cfg = config("SECRET-REDACTED");
    assert_eq!(is_authorized(Some(&"SECRET-REDACTED".to_string()), &cfg), Ok(()));
    assert_eq!(is_authorized(Some(&"other".to_string()), &cfg), Err(Unauthorized));
    assert_eq!(is_authorized(None, &cfg), Err(Unauthorized));
}
