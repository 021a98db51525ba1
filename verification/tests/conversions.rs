use base64::Engine;
use httpulse_error::Category;
use httpulse_error::HTTPulseError;
use httpulse_error::SourceKind;
use hyper::body::HttpBody;
use std::pin::Pin;
use std::task::Context;
use std::task::Poll;
use std::task::Waker;

fn aborted_transfer() -> hyper::Error {
    let (sender, mut body) = hyper::Body::channel();
    sender.abort();
    let mut context = Context::from_waker(Waker::noop());
    match Pin::new(&mut body).poll_data(&mut context) {
        Poll::Ready(Some(Err(error))) => error,
        _ => panic!("an aborted body must fail"),
    }
}

fn malformed_uri() -> hyper::http::uri::InvalidUri {
    match "http://exa mple.com/".parse::<hyper::http::Uri>() {
        Err(error) => error,
        Ok(_) => panic!("a URI with a space must not parse"),
    }
}

fn read_json(text: &str) -> Result<serde_json::Value, HTTPulseError> {
    let value = serde_json::from_str::<serde_json::Value>(text)?;
    Ok(value)
}

#[test]
fn persistence_failure_keeps_text_and_tag() {
    let error = sea_orm::DbErr::RecordNotFound(String::from("user 7"));
    let shown = error.to_string();
    let e = HTTPulseError::from(error);
    assert_eq!(e.message(), shown);
    assert_eq!(e.message(), "RecordNotFound Error: user 7");
    assert_eq!(e.category(), Category::Persistence);
    assert_eq!(e.to_wire().category, "persistence");
}

#[test]
fn custom_persistence_failure_keeps_its_text() {
    let e = HTTPulseError::from(sea_orm::DbErr::Custom(String::from("record not found")));
    assert_eq!(e.message(), "Custom Error: record not found");
    assert_eq!(e.to_wire().category, "persistence");
}

#[test]
fn request_build_failure_is_http_transport() {
    let built = hyper::http::Request::builder().uri("http://exa mple.com/").body(());
    let error = match built {
        Err(error) => error,
        Ok(_) => panic!("a request with a bad URI must not build"),
    };
    let shown = error.to_string();
    let e = HTTPulseError::from(error);
    assert_eq!(e.message(), shown);
    assert_eq!(e.message(), "invalid uri character");
    assert_eq!(e.category(), Category::HttpTransport);
    assert_eq!(e.to_wire().category, "httpTransport");
}

#[test]
fn request_execution_failure_is_http_transport() {
    let error = aborted_transfer();
    let shown = error.to_string();
    let e = HTTPulseError::from(error);
    assert_eq!(e.message(), shown);
    assert_eq!(e.message(), "user body write aborted");
    assert_eq!(e.category(), Category::HttpTransport);
    assert_eq!(e.to_wire().category, "httpTransport");
}

#[test]
fn both_http_failures_share_the_transport_tag() {
    let built = hyper::http::Request::builder().method("bad method").body(());
    let build = match built {
        Err(error) => HTTPulseError::from(error),
        Ok(_) => panic!("a request with a bad method must not build"),
    };
    let run = HTTPulseError::from(aborted_transfer());
    assert_eq!(build.category(), run.category());
    assert_eq!(build.to_wire().category, run.to_wire().category);
    assert_ne!(build.message(), run.message());
}

#[test]
fn malformed_uri_is_invalid_uri() {
    let error = malformed_uri();
    let shown = error.to_string();
    let e = HTTPulseError::from(error);
    assert_eq!(e.message(), shown);
    assert_eq!(e.message(), "invalid uri character");
    assert_eq!(e.category(), Category::InvalidUri);
    assert_eq!(e.to_wire().category, "invalidUri");
}

#[test]
fn empty_uri_is_invalid_uri() {
    let error = match "".parse::<hyper::http::Uri>() {
        Err(error) => error,
        Ok(_) => panic!("an empty URI must not parse"),
    };
    let e = HTTPulseError::from(error);
    assert_eq!(e.message(), "empty string");
    assert_eq!(e.to_wire().category, "invalidUri");
}

#[test]
fn bad_header_value_is_invalid_header_value() {
    let error = match hyper::header::HeaderValue::from_str("line\nbreak") {
        Err(error) => error,
        Ok(_) => panic!("a header value with a line break must be refused"),
    };
    let shown = error.to_string();
    let e = HTTPulseError::from(error);
    assert_eq!(e.message(), shown);
    assert_eq!(e.message(), "failed to parse header value");
    assert_eq!(e.category(), Category::InvalidHeaderValue);
    assert_eq!(e.to_wire().category, "invalidHeaderValue");
}

#[test]
fn bad_header_name_is_invalid_header_name() {
    let error = match hyper::header::HeaderName::from_bytes(b"bad name") {
        Err(error) => error,
        Ok(_) => panic!("a header name with a space must be refused"),
    };
    let shown = error.to_string();
    let e = HTTPulseError::from(error);
    assert_eq!(e.message(), shown);
    assert_eq!(e.message(), "invalid HTTP header name");
    assert_eq!(e.category(), Category::InvalidHeaderName);
    assert_eq!(e.to_wire().category, "invalidHeaderName");
}

#[test]
fn unreadable_header_value_is_header_to_string() {
    let value = match hyper::header::HeaderValue::from_bytes(&[0xfa]) {
        Ok(value) => value,
        Err(_) => panic!("an opaque byte is a valid header value"),
    };
    let error = match value.to_str() {
        Err(error) => error,
        Ok(_) => panic!("an opaque byte is no text"),
    };
    let shown = error.to_string();
    let e = HTTPulseError::from(error);
    assert_eq!(e.message(), shown);
    assert_eq!(e.message(), "failed to convert header to a str");
    assert_eq!(e.category(), Category::HeaderToString);
    assert_eq!(e.to_wire().category, "headerToString");
}

#[test]
fn file_not_found_is_io() {
    let error = std::io::Error::new(std::io::ErrorKind::NotFound, "file not found");
    let e = HTTPulseError::from(error);
    assert_eq!(e.message(), "file not found");
    assert_eq!(e.category(), Category::Io);
    assert_eq!(e.to_wire().category, "io");
}

#[test]
fn bare_io_kind_shows_its_description() {
    let error = std::io::Error::from(std::io::ErrorKind::NotFound);
    let shown = error.to_string();
    let e = HTTPulseError::from(error);
    assert_eq!(e.message(), shown);
    assert_eq!(e.message(), "entity not found");
    assert_eq!(e.to_wire().category, "io");
}

#[test]
fn io_failure_without_text_gives_an_empty_message() {
    let error = std::io::Error::new(std::io::ErrorKind::Other, "");
    let e = HTTPulseError::from(error);
    assert_eq!(e.message(), "");
    assert_eq!(e.category(), Category::Io);
}

#[test]
fn url_parse_failure_is_url_parse() {
    let error = match url::Url::parse("no scheme here") {
        Err(error) => error,
        Ok(_) => panic!("a relative URL must not parse without a base"),
    };
    let shown = error.to_string();
    let e = HTTPulseError::from(error);
    assert_eq!(e.message(), shown);
    assert_eq!(e.message(), "relative URL without a base");
    assert_eq!(e.category(), Category::UrlParse);
    assert_eq!(e.to_wire().category, "urlParse");
}

#[test]
fn cookie_domain_failure_is_cookie_jar() {
    let error = cookie_store::CookieError::DomainMismatch;
    let shown = error.to_string();
    let e = HTTPulseError::from(error);
    assert_eq!(e.message(), shown);
    assert_eq!(e.message(), "request-uri does not domain-match the cookie");
    assert_eq!(e.category(), Category::CookieJar);
    assert_eq!(e.to_wire().category, "cookieJar");
}

#[test]
fn cookie_storage_failure_is_cookie_jar() {
    let error: cookie_store::Error = "cookie file is damaged".into();
    let shown = error.to_string();
    let e = HTTPulseError::from_failure(SourceKind::CookieStorage, &error);
    assert_eq!(e.message(), shown);
    assert_eq!(e.message(), "cookie file is damaged");
    assert_eq!(e.category(), Category::CookieJar);
    assert_eq!(e.to_wire().category, "cookieJar");
}

#[test]
fn both_cookie_jar_failures_share_one_tag() {
    let storage: cookie_store::Error = Box::new(std::io::Error::new(std::io::ErrorKind::Other, "jar not writable"));
    let storage = HTTPulseError::from_failure(SourceKind::CookieStorage, &storage);
    let domain = HTTPulseError::from(cookie_store::CookieError::Expired);
    assert_eq!(storage.category(), domain.category());
    assert_eq!(storage.to_wire().category, "cookieJar");
    assert_eq!(domain.to_wire().category, "cookieJar");
    assert_eq!(storage.message(), "jar not writable");
    assert_eq!(domain.message(), "attempted to utilize an Expired Cookie");
}

#[test]
fn malformed_json_is_json_codec() {
    let error = match serde_json::from_str::<serde_json::Value>("{") {
        Err(error) => error,
        Ok(_) => panic!("an open brace alone is no JSON"),
    };
    let shown = error.to_string();
    let e = HTTPulseError::from(error);
    assert_eq!(e.message(), shown);
    assert_eq!(e.message(), "EOF while parsing an object at line 1 column 1");
    assert_eq!(e.category(), Category::JsonCodec);
    assert_eq!(e.to_wire().category, "jsonCodec");
}

#[test]
fn question_mark_converts_a_json_failure() {
    let e = match read_json("[1, 2") {
        Err(e) => e,
        Ok(_) => panic!("an open list is no JSON"),
    };
    assert_eq!(e.message(), "EOF while parsing a list at line 1 column 5");
    assert_eq!(e.category(), Category::JsonCodec);
    assert!(read_json("[1, 2]").is_ok());
}

#[test]
fn base64_failure_is_base64_codec() {
    let error = base64::DecodeError::InvalidByte(3, b'!');
    let shown = error.to_string();
    let e = HTTPulseError::from(error);
    assert_eq!(e.message(), shown);
    assert_eq!(e.message(), "Invalid symbol 33, offset 3.");
    assert_eq!(e.category(), Category::Base64Codec);
    assert_eq!(e.to_wire().category, "base64Codec");
}

#[test]
fn base64_decoding_failure_is_base64_codec() {
    let error = match base64::engine::general_purpose::STANDARD.decode("ab!d") {
        Err(error) => error,
        Ok(_) => panic!("an exclamation mark is no base64 symbol"),
    };
    let shown = error.to_string();
    let e = HTTPulseError::from(error);
    assert_eq!(e.message(), shown);
    assert_eq!(e.message(), "Invalid symbol 33, offset 2.");
    assert_eq!(e.to_wire().category, "base64Codec");
}

#[test]
fn archive_failure_is_archive() {
    let error = zip::result::ZipError::FileNotFound;
    let shown = error.to_string();
    let e = HTTPulseError::from(error);
    assert_eq!(e.message(), shown);
    assert_eq!(e.message(), "specified file not found in archive");
    assert_eq!(e.category(), Category::Archive);
    assert_eq!(e.to_wire().category, "archive");
}

#[test]
fn archive_failure_keeps_its_detail() {
    let error = zip::result::ZipError::UnsupportedArchive("split archives");
    let e = HTTPulseError::from(error);
    assert_eq!(e.message(), "unsupported Zip archive: split archives");
    assert_eq!(e.to_wire().category, "archive");
}

#[test]
fn cookie_header_failure_is_cookie_parse() {
    let error = match cookie::Cookie::parse("no pair here") {
        Err(error) => error,
        Ok(_) => panic!("a cookie without a pair must not parse"),
    };
    let shown = error.to_string();
    let e = HTTPulseError::from(error);
    assert_eq!(e.message(), shown);
    assert_eq!(e.message(), "the cookie is missing a name/value pair");
    assert_eq!(e.category(), Category::CookieParse);
    assert_eq!(e.to_wire().category, "cookieParse");
}

#[test]
fn into_converts_as_from_does() {
    let e: HTTPulseError = cookie::ParseError::EmptyName.into();
    assert_eq!(e.message(), "the cookie's name is empty");
    assert_eq!(e.category(), Category::CookieParse);
}

#[test]
fn converting_the_same_failure_twice_gives_the_same_error() {
    let first = HTTPulseError::from(zip::result::ZipError::InvalidPassword);
    let second = HTTPulseError::from(zip::result::ZipError::InvalidPassword);
    assert_eq!(first.message(), second.message());
    assert_eq!(first.category(), second.category());
    assert_eq!(first.message(), "provided password is incorrect");
}

#[test]
fn from_failure_takes_any_displayable_failure() {
    let e = HTTPulseError::from_failure(SourceKind::Io, "disk full");
    assert_eq!(e.message(), "disk full");
    assert_eq!(e.category(), Category::Io);
    let e = HTTPulseError::from_failure(SourceKind::Archive, &zip::result::ZipError::FileNotFound);
    assert_eq!(e.message(), "specified file not found in archive");
    assert_eq!(e.category(), Category::Archive);
}

#[test]
fn a_converted_failure_survives_the_wire() {
    let e = HTTPulseError::from(malformed_uri());
    let back = HTTPulseError::from_wire(&e.to_wire());
    assert!(matches!(&back, Some(read) if read.message() == e.message() && read.category() == e.category()));
}
