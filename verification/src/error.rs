//! Error types of the crawler and of its item pipelines.
//!
//! Errors of other crates are turned into these types by `From`. Most of the
//! conversions keep only the text that the foreign error displays. That text
//! is produced by code outside this crate; the contracts here relate it to
//! the foreign error by `to_string_from_display_ensures` and say in which
//! variant it ends up.

use vstd::prelude::*;
use vstd::std_specs::convert::FromSpecImpl;
use vstd::string::to_string_from_display_ensures;

verus! {

/// `url::ParseError`, carried through as an opaque value.
#[verifier::external_type_specification]
#[verifier::external_body]
pub struct ExUrlParseError(url::ParseError);

/// `std::str::Utf8Error`, carried through as an opaque value.
#[verifier::external_type_specification]
#[verifier::external_body]
pub struct ExUtf8Error(std::str::Utf8Error);

/// `std::io::Error`, of which only the displayed text is used.
#[verifier::external_type_specification]
#[verifier::external_body]
pub struct ExIoError(std::io::Error);

/// `reqwest::Error`, of which the displayed text and two flags are used.
#[verifier::external_type_specification]
#[verifier::external_body]
pub struct ExReqwestError(reqwest::Error);

/// `serde_json::Error`, of which only the displayed text is used.
#[verifier::external_type_specification]
#[verifier::external_body]
pub struct ExSerdeJsonError(serde_json::Error);

/// `csv::Error`, of which only the displayed text is used.
#[verifier::external_type_specification]
#[verifier::external_body]
pub struct ExCsvError(csv::Error);

/// `rusqlite::Error`, of which only the displayed text is used.
#[verifier::external_type_specification]
#[verifier::external_body]
pub struct ExRusqliteError(rusqlite::Error);

/// `bincode::ErrorKind`, which `bincode::Error` boxes; only the displayed
/// text is used.
#[verifier::external_type_specification]
#[verifier::external_body]
pub struct ExBincodeErrorKind(bincode::ErrorKind);

/// `http::header::InvalidHeaderValue`, of which only the displayed text is
/// used.
#[verifier::external_type_specification]
#[verifier::external_body]
pub struct ExInvalidHeaderValue(http::header::InvalidHeaderValue);

/// `url::ParseError` is `Copy`: its clone is the value itself.
pub assume_specification[ <url::ParseError as Clone>::clone ](e: &url::ParseError) -> (copy:
    url::ParseError)
    ensures
        copy == *e,
;

/// `Utf8Error` is `Copy`: its clone is the value itself.
pub assume_specification[ <std::str::Utf8Error as Clone>::clone ](e: &std::str::Utf8Error) -> (copy:
    std::str::Utf8Error)
    ensures
        copy == *e,
;

/// `reqwest::Error::is_connect` walks the chain of causes of the error;
/// nothing is claimed of what it finds.
pub assume_specification[ reqwest::Error::is_connect ](e: &reqwest::Error) -> bool;

/// `reqwest::Error::is_timeout` walks the chain of causes of the error;
/// nothing is claimed of what it finds.
pub assume_specification[ reqwest::Error::is_timeout ](e: &reqwest::Error) -> bool;

/// What is kept of a failed HTTP exchange.
#[derive(Debug, Clone)]
pub struct ReqwestErrorDetails {
    pub message: String,
    pub is_connect: bool,
    pub is_timeout: bool,
}

/// The error type for item processing pipelines.
#[derive(Debug, Clone)]
pub enum PipelineError {
    IoError(String),
    ItemError(String),
    DatabaseError(String),
    SerializationError(String),
    CsvError(String),
    Other(String),
}

/// The main error type of the crawler.
#[derive(Debug, Clone)]
pub enum SpiderError {
    ReqwestError(ReqwestErrorDetails),
    UrlParseError(url::ParseError),
    JsonError(String),
    IoError(String),
    ConfigurationError(String),
    GeneralError(String),
    ItemToStringError(String),
    ItemSerializationError(String),
    Unknown,
    InvalidHeaderValue(String),
    HeaderValueError(String),
    HtmlParseError(String),
    Utf8Error(std::str::Utf8Error),
    PipelineError(PipelineError),
    BlockedByRobotsTxt,
}

impl ReqwestErrorDetails {
    /// The text that describes the error.
    pub open spec fn text(self) -> Seq<char> {
        "Reqwest error: "@ + self.message@
    }

    /// The text that describes the error.
    pub fn to_string(&self) -> (s: String)
        ensures
            s@ == self.text(),
    {
        String::from_str("Reqwest error: ").concat(self.message.as_str())
    }
}

impl FromSpecImpl<reqwest::Error> for ReqwestErrorDetails {
    open spec fn obeys_from_spec() -> bool {
        false
    }

    open spec fn from_spec(err: reqwest::Error) -> ReqwestErrorDetails {
        arbitrary()
    }
}

impl From<reqwest::Error> for ReqwestErrorDetails {
    /// Keeps the displayed text of `err` and its two flags.
    fn from(err: reqwest::Error) -> (details: ReqwestErrorDetails)
        ensures
            to_string_from_display_ensures::<reqwest::Error>(&err, details.message),
    {
        ReqwestErrorDetails {
            is_connect: err.is_connect(),
            is_timeout: err.is_timeout(),
            message: err.to_string(),
        }
    }
}

impl PipelineError {
    /// The text that describes the error.
    pub open spec fn text(self) -> Seq<char> {
        match self {
            PipelineError::IoError(m) => "I/O error: "@ + m@,
            PipelineError::ItemError(m) => "Item processing error: "@ + m@,
            PipelineError::DatabaseError(m) => "Database error: "@ + m@,
            PipelineError::SerializationError(m) => "Serialization error: "@ + m@,
            PipelineError::CsvError(m) => "CSV error: "@ + m@,
            PipelineError::Other(m) => "Other pipeline error: "@ + m@,
        }
    }

    /// The text that describes the error.
    pub fn to_string(&self) -> (s: String)
        ensures
            s@ == self.text(),
    {
        match self {
            PipelineError::IoError(m) => String::from_str("I/O error: ").concat(m.as_str()),
            PipelineError::ItemError(m) => String::from_str("Item processing error: ").concat(
                m.as_str(),
            ),
            PipelineError::DatabaseError(m) => String::from_str("Database error: ").concat(
                m.as_str(),
            ),
            PipelineError::SerializationError(m) => String::from_str(
                "Serialization error: ",
            ).concat(m.as_str()),
            PipelineError::CsvError(m) => String::from_str("CSV error: ").concat(m.as_str()),
            PipelineError::Other(m) => String::from_str("Other pipeline error: ").concat(
                m.as_str(),
            ),
        }
    }
}

impl FromSpecImpl<csv::Error> for PipelineError {
    open spec fn obeys_from_spec() -> bool {
        false
    }

    open spec fn from_spec(err: csv::Error) -> PipelineError {
        arbitrary()
    }
}

impl From<csv::Error> for PipelineError {
    fn from(err: csv::Error) -> (e: PipelineError)
        ensures
            e matches PipelineError::CsvError(m) && to_string_from_display_ensures::<csv::Error>(
                &err,
                m,
            ),
    {
        PipelineError::CsvError(err.to_string())
    }
}

impl FromSpecImpl<std::io::Error> for PipelineError {
    open spec fn obeys_from_spec() -> bool {
        false
    }

    open spec fn from_spec(err: std::io::Error) -> PipelineError {
        arbitrary()
    }
}

impl From<std::io::Error> for PipelineError {
    fn from(err: std::io::Error) -> (e: PipelineError)
        ensures
            e matches PipelineError::IoError(m) && to_string_from_display_ensures::<
                std::io::Error,
            >(&err, m),
    {
        PipelineError::IoError(err.to_string())
    }
}

impl FromSpecImpl<serde_json::Error> for PipelineError {
    open spec fn obeys_from_spec() -> bool {
        false
    }

    open spec fn from_spec(err: serde_json::Error) -> PipelineError {
        arbitrary()
    }
}

impl From<serde_json::Error> for PipelineError {
    fn from(err: serde_json::Error) -> (e: PipelineError)
        ensures
            e matches PipelineError::SerializationError(m) && to_string_from_display_ensures::<
                serde_json::Error,
            >(&err, m),
    {
        PipelineError::SerializationError(err.to_string())
    }
}

impl FromSpecImpl<rusqlite::Error> for PipelineError {
    open spec fn obeys_from_spec() -> bool {
        false
    }

    open spec fn from_spec(err: rusqlite::Error) -> PipelineError {
        arbitrary()
    }
}

impl From<rusqlite::Error> for PipelineError {
    fn from(err: rusqlite::Error) -> (e: PipelineError)
        ensures
            e matches PipelineError::DatabaseError(m) && to_string_from_display_ensures::<
                rusqlite::Error,
            >(&err, m),
    {
        PipelineError::DatabaseError(err.to_string())
    }
}

impl SpiderError {
    /// Whether `s` is a text that describes the error. For the variants that
    /// hold a foreign error, the text ends with what that error displays.
    pub open spec fn has_text(self, s: Seq<char>) -> bool {
        match self {
            SpiderError::ReqwestError(d) => s == "Reqwest error: "@ + d.text(),
            SpiderError::UrlParseError(e) => exists|t: String|
                to_string_from_display_ensures::<url::ParseError>(&e, t) && s
                    == "Url parsing error: "@ + t@,
            SpiderError::JsonError(m) => s == "Json parsing error: "@ + m@,
            SpiderError::IoError(m) => s == "Io error: "@ + m@,
            SpiderError::ConfigurationError(m) => s == "Configuration error: "@ + m@,
            SpiderError::GeneralError(m) => s == "General error: "@ + m@,
            SpiderError::ItemToStringError(m) => s == "Failed to convert item to string: "@ + m@,
            SpiderError::ItemSerializationError(m) => s == "Error during item serialization: "@
                + m@,
            SpiderError::Unknown => s == "Unknown error"@,
            SpiderError::InvalidHeaderValue(m) => s == "Invalid HTTP header value: "@ + m@,
            SpiderError::HeaderValueError(m) => s == "Header value error: "@ + m@,
            SpiderError::HtmlParseError(m) => s == "HTML parsing error: "@ + m@,
            SpiderError::Utf8Error(e) => exists|t: String|
                to_string_from_display_ensures::<std::str::Utf8Error>(&e, t) && s
                    == "UTF-8 parsing error: "@ + t@,
            SpiderError::PipelineError(e) => s == "Pipeline error: "@ + e.text(),
            SpiderError::BlockedByRobotsTxt => s == "Request blocked by robots.txt"@,
        }
    }

    /// The text that describes the error.
    pub fn to_string(&self) -> (s: String)
        ensures
            self.has_text(s@),
    {
        match self {
            SpiderError::ReqwestError(d) => String::from_str("Reqwest error: ").concat(
                d.to_string().as_str(),
            ),
            SpiderError::UrlParseError(e) => {
                let t = e.to_string();
                String::from_str("Url parsing error: ").concat(t.as_str())
            },
            SpiderError::JsonError(m) => String::from_str("Json parsing error: ").concat(
                m.as_str(),
            ),
            SpiderError::IoError(m) => String::from_str("Io error: ").concat(m.as_str()),
            SpiderError::ConfigurationError(m) => String::from_str("Configuration error: ").concat(
                m.as_str(),
            ),
            SpiderError::GeneralError(m) => String::from_str("General error: ").concat(m.as_str()),
            SpiderError::ItemToStringError(m) => String::from_str(
                "Failed to convert item to string: ",
            ).concat(m.as_str()),
            SpiderError::ItemSerializationError(m) => String::from_str(
                "Error during item serialization: ",
            ).concat(m.as_str()),
            SpiderError::Unknown => String::from_str("Unknown error"),
            SpiderError::InvalidHeaderValue(m) => String::from_str(
                "Invalid HTTP header value: ",
            ).concat(m.as_str()),
            SpiderError::HeaderValueError(m) => String::from_str("Header value error: ").concat(
                m.as_str(),
            ),
            SpiderError::HtmlParseError(m) => String::from_str("HTML parsing error: ").concat(
                m.as_str(),
            ),
            SpiderError::Utf8Error(e) => {
                let t = e.to_string();
                String::from_str("UTF-8 parsing error: ").concat(t.as_str())
            },
            SpiderError::PipelineError(e) => String::from_str("Pipeline error: ").concat(
                e.to_string().as_str(),
            ),
            SpiderError::BlockedByRobotsTxt => String::from_str("Request blocked by robots.txt"),
        }
    }
}

impl FromSpecImpl<ReqwestErrorDetails> for SpiderError {
    open spec fn obeys_from_spec() -> bool {
        true
    }

    open spec fn from_spec(details: ReqwestErrorDetails) -> SpiderError {
        SpiderError::ReqwestError(details)
    }
}

impl From<ReqwestErrorDetails> for SpiderError {
    fn from(details: ReqwestErrorDetails) -> (e: SpiderError) {
        SpiderError::ReqwestError(details)
    }
}

impl FromSpecImpl<url::ParseError> for SpiderError {
    open spec fn obeys_from_spec() -> bool {
        true
    }

    open spec fn from_spec(err: url::ParseError) -> SpiderError {
        SpiderError::UrlParseError(err)
    }
}

impl From<url::ParseError> for SpiderError {
    fn from(err: url::ParseError) -> (e: SpiderError) {
        SpiderError::UrlParseError(err)
    }
}

impl FromSpecImpl<std::str::Utf8Error> for SpiderError {
    open spec fn obeys_from_spec() -> bool {
        true
    }

    open spec fn from_spec(err: std::str::Utf8Error) -> SpiderError {
        SpiderError::Utf8Error(err)
    }
}

impl From<std::str::Utf8Error> for SpiderError {
    fn from(err: std::str::Utf8Error) -> (e: SpiderError) {
        SpiderError::Utf8Error(err)
    }
}

impl FromSpecImpl<PipelineError> for SpiderError {
    open spec fn obeys_from_spec() -> bool {
        true
    }

    open spec fn from_spec(err: PipelineError) -> SpiderError {
        SpiderError::PipelineError(err)
    }
}

impl From<PipelineError> for SpiderError {
    fn from(err: PipelineError) -> (e: SpiderError) {
        SpiderError::PipelineError(err)
    }
}

impl FromSpecImpl<http::header::InvalidHeaderValue> for SpiderError {
    open spec fn obeys_from_spec() -> bool {
        false
    }

    open spec fn from_spec(err: http::header::InvalidHeaderValue) -> SpiderError {
        arbitrary()
    }
}

impl From<http::header::InvalidHeaderValue> for SpiderError {
    fn from(err: http::header::InvalidHeaderValue) -> (e: SpiderError)
        ensures
            e matches SpiderError::InvalidHeaderValue(m) && to_string_from_display_ensures::<
                http::header::InvalidHeaderValue,
            >(&err, m),
    {
        SpiderError::InvalidHeaderValue(err.to_string())
    }
}

impl FromSpecImpl<bincode::Error> for SpiderError {
    open spec fn obeys_from_spec() -> bool {
        false
    }

    open spec fn from_spec(err: bincode::Error) -> SpiderError {
        arbitrary()
    }
}

impl From<bincode::Error> for SpiderError {
    fn from(err: bincode::Error) -> (e: SpiderError)
        ensures
            e matches SpiderError::GeneralError(m) && exists|t: String|
                to_string_from_display_ensures::<bincode::Error>(&err, t) && m@
                    == "Bincode error: "@ + t@,
    {
        let t = err.to_string();
        SpiderError::GeneralError(String::from_str("Bincode error: ").concat(t.as_str()))
    }
}

impl FromSpecImpl<reqwest::Error> for SpiderError {
    open spec fn obeys_from_spec() -> bool {
        false
    }

    open spec fn from_spec(err: reqwest::Error) -> SpiderError {
        arbitrary()
    }
}

impl From<reqwest::Error> for SpiderError {
    fn from(err: reqwest::Error) -> (e: SpiderError)
        ensures
            e matches SpiderError::ReqwestError(d) && to_string_from_display_ensures::<
                reqwest::Error,
            >(&err, d.message),
    {
        SpiderError::ReqwestError(ReqwestErrorDetails::from(err))
    }
}

impl FromSpecImpl<std::io::Error> for SpiderError {
    open spec fn obeys_from_spec() -> bool {
        false
    }

    open spec fn from_spec(err: std::io::Error) -> SpiderError {
        arbitrary()
    }
}

impl From<std::io::Error> for SpiderError {
    fn from(err: std::io::Error) -> (e: SpiderError)
        ensures
            e matches SpiderError::IoError(m) && to_string_from_display_ensures::<std::io::Error>(
                &err,
                m,
            ),
    {
        SpiderError::IoError(err.to_string())
    }
}

impl FromSpecImpl<serde_json::Error> for SpiderError {
    open spec fn obeys_from_spec() -> bool {
        false
    }

    open spec fn from_spec(err: serde_json::Error) -> SpiderError {
        arbitrary()
    }
}

impl From<serde_json::Error> for SpiderError {
    fn from(err: serde_json::Error) -> (e: SpiderError)
        ensures
            e matches SpiderError::JsonError(m) && to_string_from_display_ensures::<
                serde_json::Error,
            >(&err, m),
    {
        SpiderError::JsonError(err.to_string())
    }
}

impl FromSpecImpl<rusqlite::Error> for SpiderError {
    open spec fn obeys_from_spec() -> bool {
        false
    }

    open spec fn from_spec(err: rusqlite::Error) -> SpiderError {
        arbitrary()
    }
}

impl From<rusqlite::Error> for SpiderError {
    fn from(err: rusqlite::Error) -> (e: SpiderError)
        ensures
            e matches SpiderError::PipelineError(PipelineError::DatabaseError(m))
                && to_string_from_display_ensures::<rusqlite::Error>(&err, m),
    {
        SpiderError::PipelineError(PipelineError::DatabaseError(err.to_string()))
    }
}

} // verus!
