//! What the web interface decides: who asks, and how an error is answered.

use vstd::prelude::*;
use vstd::utf8::{decode_utf8, valid_utf8};
use crate::bakalari::{RequestError, RequestErrorView};
use crate::text::{split_once, strip_prefix, text_split_once, text_strip_prefix};

verus! {

/// `base64::DecodeError`: why a text is no base64.
#[verifier::external_type_specification]
#[verifier::external_body]
pub struct ExDecodeError(base64::DecodeError);

/// `std::string::FromUtf8Error`: why bytes are no UTF-8.
#[verifier::external_type_specification]
#[verifier::external_body]
pub struct ExFromUtf8Error(std::string::FromUtf8Error);

/// The prefix of the header `Authorization` of the basic scheme.
pub const BASIC_PREFIX: &'static str = "Basic ";

/// The bytes that `base64::Engine::decode` reads `text` as, with the standard
/// alphabet and padding; `None` where `text` is no such encoding.
pub uninterp spec fn base64_bytes(text: Seq<char>) -> Option<Seq<u8>>;

/// `base64::Engine::decode` of the engine
/// `base64::engine::general_purpose::STANDARD`.
#[verifier::external_body]
pub(crate) fn decode_base64(text: &str) -> (r: Result<Vec<u8>, base64::DecodeError>)
    ensures
        match r {
            Ok(bytes) => base64_bytes(text@) == Some(bytes@),
            Err(_) => base64_bytes(text@) is None,
        },
{
    base64::Engine::decode(&base64::engine::general_purpose::STANDARD, text)
}

/// `String::from_utf8`: the text that the bytes encode in UTF-8, and an
/// error where they encode none.
#[verifier::external_body]
pub(crate) fn string_from_utf8(bytes: Vec<u8>) -> (r: Result<String, std::string::FromUtf8Error>)
    ensures
        match r {
            Ok(text) => valid_utf8(bytes@) && text@ == decode_utf8(bytes@),
            Err(_) => !valid_utf8(bytes@),
        },
{
    String::from_utf8(bytes)
}

/// The text that a value in base64 encodes.
pub open spec fn decoded_text(encoded: Seq<char>) -> Option<Seq<char>> {
    match base64_bytes(encoded) {
        Some(bytes) if valid_utf8(bytes) => Some(decode_utf8(bytes)),
        _ => None,
    }
}

/// The name and password that a header `Authorization` of the basic scheme
/// carries: after the scheme's prefix, in base64, the name, a colon and the
/// password.
pub open spec fn basic_credentials(header: Option<Seq<char>>) -> Option<(Seq<char>, Seq<char>)> {
    match header {
        None => None,
        Some(header) => match strip_prefix(header, BASIC_PREFIX@) {
            None => None,
            Some(encoded) => match decoded_text(encoded) {
                None => None,
                Some(text) => split_once(text, ":"@),
            },
        },
    }
}

/// Splits the text of basic credentials into name and password.
pub fn split_credentials(text: &str) -> (r: Option<(String, String)>)
    ensures
        r.deep_view() == split_once(text@, ":"@),
{
    match text_split_once(text, ":") {
        Some((username, password)) => Some((username.to_owned(), password.to_owned())),
        None => None,
    }
}

/// Reads the name and password off the header `Authorization`, given as
/// text where the request has it as text.
pub fn auth(header: Option<&str>) -> (r: Option<(String, String)>)
    ensures
        r.deep_view() == basic_credentials(header.deep_view()),
{
    let header = match header {
        Some(header) => header,
        None => { return None; },
    };
    let encoded = match text_strip_prefix(header, BASIC_PREFIX) {
        Some(encoded) => encoded,
        None => { return None; },
    };
    let bytes = match decode_base64(encoded) {
        Ok(bytes) => bytes,
        Err(_) => { return None; },
    };
    let text = match string_from_utf8(bytes) {
        Ok(text) => text,
        Err(_) => { return None; },
    };
    split_credentials(text.as_str())
}

/// Why the web interface does not answer a request with what was asked for.
#[derive(Debug)]
pub enum ApiError {
    /// The request names no portal, or not by an address.
    BadUrl,
    /// The portal could not be read.
    ScrapeError(RequestError),
    /// The portal knows no subject of that name.
    InvalidSelector,
}

/// The mathematical value of an [`ApiError`].
pub enum ApiErrorView {
    BadUrl,
    ScrapeError(RequestErrorView),
    InvalidSelector,
}

impl View for ApiError {
    type V = ApiErrorView;

    open spec fn view(&self) -> ApiErrorView {
        match self {
            ApiError::BadUrl => ApiErrorView::BadUrl,
            ApiError::ScrapeError(e) => ApiErrorView::ScrapeError(e@),
            ApiError::InvalidSelector => ApiErrorView::InvalidSelector,
        }
    }
}

impl ApiErrorView {
    /// The status that answers the error: a fault of the request is a bad
    /// request, a fault in reading the portal an internal error.
    pub open spec fn status(self) -> int {
        match self {
            ApiErrorView::ScrapeError(_) => 500,
            ApiErrorView::BadUrl => 400,
            ApiErrorView::InvalidSelector => 400,
        }
    }
}

impl ApiError {
    /// The text that answers the error.
    pub open spec fn wording(&self) -> Seq<char> {
        match self {
            ApiError::ScrapeError(e) => e.wording(),
            ApiError::BadUrl => "Invalid or missing URL"@,
            ApiError::InvalidSelector => "Invalid or missing selector"@,
        }
    }

    /// The status that answers the error.
    pub fn status(&self) -> (r: u16)
        ensures
            r == self@.status(),
    {
        match self {
            ApiError::ScrapeError(_) => 500,
            ApiError::BadUrl => 400,
            ApiError::InvalidSelector => 400,
        }
    }

    /// The text that answers the error.
    pub fn message(&self) -> (r: String)
        ensures
            r@ == self.wording(),
    {
        match self {
            ApiError::ScrapeError(e) => e.message(),
            ApiError::BadUrl => String::from_str("Invalid or missing URL"),
            ApiError::InvalidSelector => String::from_str("Invalid or missing selector"),
        }
    }
}

} // verus!
