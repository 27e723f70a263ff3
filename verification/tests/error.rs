use spider_util::error::{PipelineError, ReqwestErrorDetails, SpiderError};

fn io_error() -> std::io::Error {
    std::io::Error::new(std::io::ErrorKind::NotFound, "no such file")
}

fn json_error() -> serde_json::Error {
    match serde_json::from_str::<serde_json::Value>("{") {
        Err(e) => e,
        Ok(_) => panic!("a lone brace was parsed"),
    }
}

fn utf8_error() -> std::str::Utf8Error {
    let bytes: Vec<u8> = vec![b'a', 0xff];
    match std::str::from_utf8(&bytes) {
        Err(e) => e,
        Ok(_) => panic!("0xff was taken for UTF-8"),
    }
}

fn reqwest_error() -> reqwest::Error {
    match reqwest::Client::new().get("not a url").build() {
        Err(e) => e,
        Ok(_) => panic!("a request without a URL was built"),
    }
}

#[test]
fn pipeline_errors_describe_themselves() {
    assert_eq!(PipelineError::IoError("disk full".into()).to_string(), "I/O error: disk full");
    assert_eq!(
        PipelineError::ItemError("no title".into()).to_string(),
        "Item processing error: no title"
    );
    assert_eq!(
        PipelineError::DatabaseError("locked".into()).to_string(),
        "Database error: locked"
    );
    assert_eq!(
        PipelineError::SerializationError("bad value".into()).to_string(),
        "Serialization error: bad value"
    );
    assert_eq!(PipelineError::CsvError("short row".into()).to_string(), "CSV error: short row");
    assert_eq!(PipelineError::Other("else".into()).to_string(), "Other pipeline error: else");
    assert_eq!(PipelineError::Other(String::new()).to_string(), "Other pipeline error: ");
}

#[test]
fn reqwest_details_describe_themselves() {
    let details = ReqwestErrorDetails {
        message: "connection refused".into(),
        is_connect: true,
        is_timeout: false,
    };
    assert_eq!(details.to_string(), "Reqwest error: connection refused");
    assert_eq!(
        SpiderError::ReqwestError(details).to_string(),
        "Reqwest error: Reqwest error: connection refused"
    );
}

#[test]
fn spider_errors_describe_themselves() {
    assert_eq!(SpiderError::JsonError("eof".into()).to_string(), "Json parsing error: eof");
    assert_eq!(SpiderError::IoError("denied".into()).to_string(), "Io error: denied");
    assert_eq!(
        SpiderError::ConfigurationError("no start URL".into()).to_string(),
        "Configuration error: no start URL"
    );
    assert_eq!(SpiderError::GeneralError("oops".into()).to_string(), "General error: oops");
    assert_eq!(
        SpiderError::ItemToStringError("x".into()).to_string(),
        "Failed to convert item to string: x"
    );
    assert_eq!(
        SpiderError::ItemSerializationError("y".into()).to_string(),
        "Error during item serialization: y"
    );
    assert_eq!(SpiderError::Unknown.to_string(), "Unknown error");
    assert_eq!(
        SpiderError::InvalidHeaderValue("z".into()).to_string(),
        "Invalid HTTP header value: z"
    );
    assert_eq!(
        SpiderError::HeaderValueError("w".into()).to_string(),
        "Header value error: w"
    );
    assert_eq!(
        SpiderError::HtmlParseError("bad selector".into()).to_string(),
        "HTML parsing error: bad selector"
    );
    assert_eq!(
        SpiderError::PipelineError(PipelineError::CsvError("short row".into())).to_string(),
        "Pipeline error: CSV error: short row"
    );
    assert_eq!(SpiderError::BlockedByRobotsTxt.to_string(), "Request blocked by robots.txt");
}

#[test]
fn foreign_errors_are_described_by_their_own_text() {
    assert_eq!(
        SpiderError::UrlParseError(url::ParseError::EmptyHost).to_string(),
        format!("Url parsing error: {}", url::ParseError::EmptyHost)
    );
    assert_eq!(
        SpiderError::UrlParseError(url::ParseError::InvalidPort).to_string(),
        "Url parsing error: invalid port number"
    );
    let e = utf8_error();
    assert_eq!(
        SpiderError::Utf8Error(e).to_string(),
        format!("UTF-8 parsing error: {}", e)
    );
}

#[test]
fn own_errors_are_wrapped_as_they_are() {
    assert!(matches!(
        SpiderError::from(PipelineError::ItemError("no title".into())),
        SpiderError::PipelineError(PipelineError::ItemError(m)) if m == "no title"
    ));
    let details = ReqwestErrorDetails {
        message: "timed out".into(),
        is_connect: false,
        is_timeout: true,
    };
    assert!(matches!(
        SpiderError::from(details),
        SpiderError::ReqwestError(d) if d.message == "timed out" && d.is_timeout && !d.is_connect
    ));
    assert!(matches!(
        SpiderError::from(url::ParseError::RelativeUrlWithoutBase),
        SpiderError::UrlParseError(url::ParseError::RelativeUrlWithoutBase)
    ));
    let e = utf8_error();
    assert!(matches!(SpiderError::from(e), SpiderError::Utf8Error(inner) if inner == e));
}

#[test]
fn io_errors_keep_their_text() {
    let text = io_error().to_string();
    assert!(matches!(SpiderError::from(io_error()), SpiderError::IoError(m) if m == text));
    assert!(matches!(PipelineError::from(io_error()), PipelineError::IoError(m) if m == text));
    assert_eq!(SpiderError::from(io_error()).to_string(), "Io error: no such file");
}

#[test]
fn json_errors_keep_their_text() {
    let text = json_error().to_string();
    assert!(!text.is_empty());
    assert!(matches!(SpiderError::from(json_error()), SpiderError::JsonError(m) if m == text));
    assert!(matches!(
        PipelineError::from(json_error()),
        PipelineError::SerializationError(m) if m == text
    ));
}

#[test]
fn csv_errors_keep_their_text() {
    let text = csv::Error::from(io_error()).to_string();
    assert!(matches!(
        PipelineError::from(csv::Error::from(io_error())),
        PipelineError::CsvError(m) if m == text
    ));
}

#[test]
fn database_errors_keep_their_text() {
    let text = rusqlite::Error::QueryReturnedNoRows.to_string();
    assert!(matches!(
        PipelineError::from(rusqlite::Error::QueryReturnedNoRows),
        PipelineError::DatabaseError(m) if m == text
    ));
    assert!(matches!(
        SpiderError::from(rusqlite::Error::QueryReturnedNoRows),
        SpiderError::PipelineError(PipelineError::DatabaseError(m)) if m == text
    ));
}

#[test]
fn bincode_errors_are_general_errors() {
    let text = bincode::ErrorKind::SizeLimit.to_string();
    let e: bincode::Error = Box::new(bincode::ErrorKind::SizeLimit);
    assert!(matches!(
        SpiderError::from(e),
        SpiderError::GeneralError(m) if m == format!("Bincode error: {}", text)
    ));
}

#[test]
fn header_errors_keep_their_text() {
    let e = match http::header::HeaderValue::from_str("line\nbreak") {
        Err(e) => e,
        Ok(_) => panic!("a line break was taken into a header"),
    };
    let text = e.to_string();
    assert!(matches!(SpiderError::from(e), SpiderError::InvalidHeaderValue(m) if m == text));
}

#[test]
fn reqwest_errors_keep_text_and_flags() {
    let e = reqwest_error();
    let text = e.to_string();
    let is_connect = e.is_connect();
    let is_timeout = e.is_timeout();
    let details = ReqwestErrorDetails::from(e);
    assert_eq!(details.message, text);
    assert_eq!(details.is_connect, is_connect);
    assert_eq!(details.is_timeout, is_timeout);
    assert!(!details.is_connect && !details.is_timeout);
    assert!(matches!(
        SpiderError::from(reqwest_error()),
        SpiderError::ReqwestError(d) if d.message == text
    ));
}

#[test]
fn errors_can_be_cloned() {
    let e = SpiderError::PipelineError(PipelineError::Other("x".into()));
    assert_eq!(e.clone().to_string(), e.to_string());
    let u = SpiderError::UrlParseError(url::ParseError::EmptyHost);
    assert_eq!(u.clone().to_string(), u.to_string());
}
