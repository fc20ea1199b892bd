//! Rejections.
//!
//! A filter that does not accept a request rejects it. Rejections of
//! alternative filters accumulate: a [`Rejection`] holds every cause that was
//! met, in the order in which the alternatives were tried, and resolves them
//! to one status code and one response. A cause is either one of the
//! library's own ([`Known`]) or one that the application defined
//! ([`Custom`]); a rejection without any cause is the plain "not found".
use crate::reply::{spec_bare, spec_empty, spec_text, Response, ResponseView};
use crate::status::{
    BAD_REQUEST, FORBIDDEN, INTERNAL_SERVER_ERROR, LENGTH_REQUIRED, METHOD_NOT_ALLOWED, NOT_FOUND,
    PAYLOAD_TOO_LARGE, UNSUPPORTED_MEDIA_TYPE,
};
use std::any::Any;
use std::convert::Infallible;
use std::fmt::{Debug, Write};
use vstd::prelude::*;

verus! {

/// What can stand for a failed request: it has a status code and a response.
pub trait IsReject: Send + Sync {
    /// The status code.
    spec fn spec_status(&self) -> u16;

    /// The response.
    spec fn spec_response(&self) -> ResponseView;

    /// Returns the status code.
    fn status(&self) -> (code: u16)
        ensures
            code == self.spec_status(),
    ;

    /// Builds the response.
    fn as_response(&self) -> (res: Response)
        ensures
            res@ == self.spec_response(),
    ;
}

/// Error returned when a required header is missing.
#[derive(Debug)]
pub struct MissingHeader {
    /// Name of the missing header.
    pub name: &'static str,
}

/// Error returned when a header is invalid.
#[derive(Debug)]
pub struct InvalidHeader {
    /// Name of the invalid header.
    pub name: &'static str,
}

/// Error returned when a required cookie is missing.
#[derive(Debug)]
pub struct MissingCookie {
    /// Name of the missing cookie.
    pub name: &'static str,
}

/// `lead`, then `name`, then a closing double quote.
pub open spec fn spec_quoted_name(lead: Seq<char>, name: Seq<char>) -> Seq<char> {
    lead + name + "\""@
}

/// Puts `name` behind `lead` and closes the quotes.
fn quoted_name(lead: &str, name: &str) -> (text: String)
    ensures
        text@ == spec_quoted_name(lead@, name@),
{
    String::from_str(lead).concat(name).concat("\"")
}

impl MissingHeader {
    /// The text of this error.
    pub open spec fn spec_message(&self) -> Seq<char> {
        spec_quoted_name("Missing request header \""@, self.name@)
    }

    /// Returns the text of this error.
    pub fn message(&self) -> (text: String)
        ensures
            text@ == self.spec_message(),
    {
        quoted_name("Missing request header \"", self.name)
    }
}

impl IsReject for MissingHeader {
    open spec fn spec_status(&self) -> u16 {
        BAD_REQUEST
    }

    open spec fn spec_response(&self) -> ResponseView {
        spec_bare(BAD_REQUEST, self.spec_message())
    }

    fn status(&self) -> (code: u16) {
        BAD_REQUEST
    }

    fn as_response(&self) -> (res: Response) {
        Response::bare(BAD_REQUEST, self.message())
    }
}

impl InvalidHeader {
    /// The text of this error.
    pub open spec fn spec_message(&self) -> Seq<char> {
        spec_quoted_name("Invalid request header \""@, self.name@)
    }

    /// Returns the text of this error.
    pub fn message(&self) -> (text: String)
        ensures
            text@ == self.spec_message(),
    {
        quoted_name("Invalid request header \"", self.name)
    }
}

impl IsReject for InvalidHeader {
    open spec fn spec_status(&self) -> u16 {
        BAD_REQUEST
    }

    open spec fn spec_response(&self) -> ResponseView {
        spec_bare(BAD_REQUEST, self.spec_message())
    }

    fn status(&self) -> (code: u16) {
        BAD_REQUEST
    }

    fn as_response(&self) -> (res: Response) {
        Response::bare(BAD_REQUEST, self.message())
    }
}

impl MissingCookie {
    /// The text of this error.
    pub open spec fn spec_message(&self) -> Seq<char> {
        spec_quoted_name("Missing request cookie \""@, self.name@)
    }

    /// Returns the text of this error.
    pub fn message(&self) -> (text: String)
        ensures
            text@ == self.spec_message(),
    {
        quoted_name("Missing request cookie \"", self.name)
    }
}

impl IsReject for MissingCookie {
    open spec fn spec_status(&self) -> u16 {
        BAD_REQUEST
    }

    open spec fn spec_response(&self) -> ResponseView {
        spec_bare(BAD_REQUEST, self.spec_message())
    }

    fn status(&self) -> (code: u16) {
        BAD_REQUEST
    }

    fn as_response(&self) -> (res: Response) {
        Response::bare(BAD_REQUEST, self.message())
    }
}

/// A query string that could not be read.
#[derive(Debug)]
pub struct InvalidQuery {
    _p: (),
}

impl InvalidQuery {
    /// The text of this error.
    pub open spec fn spec_message(&self) -> Seq<char> {
        "Invalid query string"@
    }

    /// Returns the text of this error.
    pub fn message(&self) -> (text: String)
        ensures
            text@ == self.spec_message(),
    {
        String::from_str("Invalid query string")
    }
}

impl IsReject for InvalidQuery {
    open spec fn spec_status(&self) -> u16 {
        BAD_REQUEST
    }

    open spec fn spec_response(&self) -> ResponseView {
        spec_bare(BAD_REQUEST, self.spec_message())
    }

    fn status(&self) -> (code: u16) {
        BAD_REQUEST
    }

    fn as_response(&self) -> (res: Response) {
        Response::bare(BAD_REQUEST, self.message())
    }
}

/// A request method that the route does not take.
#[derive(Debug)]
pub struct MethodNotAllowed {
    _p: (),
}

impl MethodNotAllowed {
    /// The text of this error.
    pub open spec fn spec_message(&self) -> Seq<char> {
        "Method not allowed"@
    }

    /// Returns the text of this error.
    pub fn message(&self) -> (text: String)
        ensures
            text@ == self.spec_message(),
    {
        String::from_str("Method not allowed")
    }
}

impl IsReject for MethodNotAllowed {
    open spec fn spec_status(&self) -> u16 {
        METHOD_NOT_ALLOWED
    }

    open spec fn spec_response(&self) -> ResponseView {
        spec_bare(METHOD_NOT_ALLOWED, self.spec_message())
    }

    fn status(&self) -> (code: u16) {
        METHOD_NOT_ALLOWED
    }

    fn as_response(&self) -> (res: Response) {
        Response::bare(METHOD_NOT_ALLOWED, self.message())
    }
}

/// A body without a declared length.
#[derive(Debug)]
pub struct LengthRequired {
    _p: (),
}

impl LengthRequired {
    /// The text of this error.
    pub open spec fn spec_message(&self) -> Seq<char> {
        "Length required"@
    }

    /// Returns the text of this error.
    pub fn message(&self) -> (text: String)
        ensures
            text@ == self.spec_message(),
    {
        String::from_str("Length required")
    }
}

impl IsReject for LengthRequired {
    open spec fn spec_status(&self) -> u16 {
        LENGTH_REQUIRED
    }

    open spec fn spec_response(&self) -> ResponseView {
        spec_bare(LENGTH_REQUIRED, self.spec_message())
    }

    fn status(&self) -> (code: u16) {
        LENGTH_REQUIRED
    }

    fn as_response(&self) -> (res: Response) {
        Response::bare(LENGTH_REQUIRED, self.message())
    }
}

/// A body beyond the allowed length.
#[derive(Debug)]
pub struct PayloadTooLarge {
    _p: (),
}

impl PayloadTooLarge {
    /// The text of this error.
    pub open spec fn spec_message(&self) -> Seq<char> {
        "Payload too large"@
    }

    /// Returns the text of this error.
    pub fn message(&self) -> (text: String)
        ensures
            text@ == self.spec_message(),
    {
        String::from_str("Payload too large")
    }
}

impl IsReject for PayloadTooLarge {
    open spec fn spec_status(&self) -> u16 {
        PAYLOAD_TOO_LARGE
    }

    open spec fn spec_response(&self) -> ResponseView {
        spec_bare(PAYLOAD_TOO_LARGE, self.spec_message())
    }

    fn status(&self) -> (code: u16) {
        PAYLOAD_TOO_LARGE
    }

    fn as_response(&self) -> (res: Response) {
        Response::bare(PAYLOAD_TOO_LARGE, self.message())
    }
}

/// A body of a media type that cannot be read.
#[derive(Debug)]
pub struct UnsupportedMediaType {
    _p: (),
}

impl UnsupportedMediaType {
    /// The text of this error.
    pub open spec fn spec_message(&self) -> Seq<char> {
        "Unsupported media type"@
    }

    /// Returns the text of this error.
    pub fn message(&self) -> (text: String)
        ensures
            text@ == self.spec_message(),
    {
        String::from_str("Unsupported media type")
    }
}

impl IsReject for UnsupportedMediaType {
    open spec fn spec_status(&self) -> u16 {
        UNSUPPORTED_MEDIA_TYPE
    }

    open spec fn spec_response(&self) -> ResponseView {
        spec_bare(UNSUPPORTED_MEDIA_TYPE, self.spec_message())
    }

    fn status(&self) -> (code: u16) {
        UNSUPPORTED_MEDIA_TYPE
    }

    fn as_response(&self) -> (res: Response) {
        Response::bare(UNSUPPORTED_MEDIA_TYPE, self.message())
    }
}

/// A file that could not be opened.
#[derive(Debug)]
pub struct FileOpenError {
    _p: (),
}

impl FileOpenError {
    /// Makes the error.
    pub fn new() -> (cause: Self) {
        FileOpenError { _p: () }
    }

    /// The text of this error.
    pub open spec fn spec_message(&self) -> Seq<char> {
        "file open error"@
    }

    /// Returns the text of this error.
    pub fn message(&self) -> (text: String)
        ensures
            text@ == self.spec_message(),
    {
        String::from_str("file open error")
    }
}

/// A file that may not be read.
#[derive(Debug)]
pub struct FilePermissionError {
    _p: (),
}

impl FilePermissionError {
    /// Makes the error.
    pub fn new() -> (cause: Self) {
        FilePermissionError { _p: () }
    }

    /// The text of this error.
    pub open spec fn spec_message(&self) -> Seq<char> {
        "file perimission error"@
    }

    /// Returns the text of this error.
    pub fn message(&self) -> (text: String)
        ensures
            text@ == self.spec_message(),
    {
        String::from_str("file perimission error")
    }
}

/// A websocket request without the upgrade of its connection.
#[derive(Debug)]
pub struct MissingConnectionUpgrade {
    _p: (),
}

impl MissingConnectionUpgrade {
    /// Makes the error.
    pub fn new() -> (cause: Self) {
        MissingConnectionUpgrade { _p: () }
    }

    /// The text of this error.
    pub open spec fn spec_message(&self) -> Seq<char> {
        "Connection header did not include 'upgrade'"@
    }

    /// Returns the text of this error.
    pub fn message(&self) -> (text: String)
        ensures
            text@ == self.spec_message(),
    {
        String::from_str("Connection header did not include 'upgrade'")
    }
}

/// A request extension that was never set.
#[derive(Debug)]
pub struct MissingExtension {
    _p: (),
}

impl MissingExtension {
    /// Makes the error.
    pub fn new() -> (cause: Self) {
        MissingExtension { _p: () }
    }

    /// The text of this error.
    pub open spec fn spec_message(&self) -> Seq<char> {
        "Missing request extension"@
    }

    /// Returns the text of this error.
    pub fn message(&self) -> (text: String)
        ensures
            text@ == self.spec_message(),
    {
        String::from_str("Missing request extension")
    }
}

/// A body that was taken more than once.
#[derive(Debug)]
pub struct BodyConsumedMultipleTimes {
    _p: (),
}

impl BodyConsumedMultipleTimes {
    /// Makes the error.
    pub fn new() -> (cause: Self) {
        BodyConsumedMultipleTimes { _p: () }
    }

    /// The text of this error.
    pub open spec fn spec_message(&self) -> Seq<char> {
        "Request body consumed multiple times"@
    }

    /// Returns the text of this error.
    pub fn message(&self) -> (text: String)
        ensures
            text@ == self.spec_message(),
    {
        String::from_str("Request body consumed multiple times")
    }
}

/// A body that could not be read to its end.
#[derive(Debug)]
pub struct BodyReadError {
    /// In words, what went wrong while reading.
    pub detail: String,
}

impl BodyReadError {
    /// The text of this error.
    pub open spec fn spec_message(&self) -> Seq<char> {
        "Request body read error: "@ + self.detail@
    }

    /// Returns the text of this error.
    pub fn message(&self) -> (text: String)
        ensures
            text@ == self.spec_message(),
    {
        String::from_str("Request body read error: ").concat(self.detail.as_str())
    }
}

/// A body that could not be decoded.
#[derive(Debug)]
pub struct BodyDeserializeError {
    /// In words, what the decoder reported.
    pub detail: String,
}

impl BodyDeserializeError {
    /// The text of this error.
    pub open spec fn spec_message(&self) -> Seq<char> {
        "Request body deserialize error: "@ + self.detail@
    }

    /// Returns the text of this error.
    pub fn message(&self) -> (text: String)
        ensures
            text@ == self.spec_message(),
    {
        String::from_str("Request body deserialize error: ").concat(self.detail.as_str())
    }
}

/// A cross-origin request that the policy forbids.
#[derive(Debug)]
pub struct CorsForbidden {
    /// In words, what the policy objects to.
    pub detail: String,
}

impl CorsForbidden {
    /// The text of this error.
    pub open spec fn spec_message(&self) -> Seq<char> {
        "CORS request forbidden: "@ + self.detail@
    }

    /// Returns the text of this error.
    pub fn message(&self) -> (text: String)
        ensures
            text@ == self.spec_message(),
    {
        String::from_str("CORS request forbidden: ").concat(self.detail.as_str())
    }
}

/// What `{:?}` writes for a string: the string between double quotes, with
/// the characters that need it escaped.
pub uninterp spec fn spec_debug_str(text: Seq<char>) -> Seq<char>;

/// Formats a string with `{:?}`, as `<str as Debug>::fmt` writes it. The result
/// is a function of the string alone.
#[verifier::external_body]
fn debug_str(text: &str) -> (quoted: String)
    ensures
        quoted@ == spec_debug_str(text@),
{
    format!("{:?}", text)
}

/// Formats any value with `{:?}`, by `write!` into a string, through the
/// value's own `Debug`; where that gives up, there is no text. Nothing is
/// claimed of the text.
#[verifier::external_body]
fn debug_text<T: Debug>(value: &T) -> (written: Option<String>) {
    let mut text = String::new();
    match write!(text, "{:?}", value) {
        Ok(()) => Some(text),
        Err(_) => None,
    }
}

/// Looks at `value` as a `T`, by `<dyn Any>::downcast_ref`: it comes back
/// itself where its type is `T`, and not at all where it is another. Nothing
/// is claimed of the result.
#[verifier::external_body]
fn as_type<S: 'static, T: 'static>(value: &S) -> (found: Option<&T>) {
    let any: &dyn Any = value;
    any.downcast_ref::<T>()
}

/// Puts what `{:?}` writes for `field` behind `lead` and closes the braces.
fn braced(lead: &str, field: &str) -> (text: String)
    ensures
        text@ == lead@ + spec_debug_str(field@) + " }"@,
{
    String::from_str(lead).concat(debug_str(field).as_str()).concat(" }")
}

/// The causes that the library itself knows, each with its status code and
/// its text.
#[derive(Debug)]
pub enum Known {
    MethodNotAllowed(MethodNotAllowed),
    InvalidHeader(InvalidHeader),
    MissingHeader(MissingHeader),
    MissingCookie(MissingCookie),
    InvalidQuery(InvalidQuery),
    LengthRequired(LengthRequired),
    PayloadTooLarge(PayloadTooLarge),
    UnsupportedMediaType(UnsupportedMediaType),
    FileOpenError(FileOpenError),
    FilePermissionError(FilePermissionError),
    BodyReadError(BodyReadError),
    BodyDeserializeError(BodyDeserializeError),
    CorsForbidden(CorsForbidden),
    MissingConnectionUpgrade(MissingConnectionUpgrade),
    MissingExtension(MissingExtension),
    BodyConsumedMultipleTimes(BodyConsumedMultipleTimes),
}

impl Known {
    /// The status code of this cause.
    pub open spec fn spec_status(&self) -> u16 {
        match self {
            Known::MethodNotAllowed(_) => METHOD_NOT_ALLOWED,
            Known::InvalidHeader(_) => BAD_REQUEST,
            Known::MissingHeader(_) => BAD_REQUEST,
            Known::MissingCookie(_) => BAD_REQUEST,
            Known::InvalidQuery(_) => BAD_REQUEST,
            Known::LengthRequired(_) => LENGTH_REQUIRED,
            Known::PayloadTooLarge(_) => PAYLOAD_TOO_LARGE,
            Known::UnsupportedMediaType(_) => UNSUPPORTED_MEDIA_TYPE,
            Known::FileOpenError(_) => INTERNAL_SERVER_ERROR,
            Known::FilePermissionError(_) => FORBIDDEN,
            Known::BodyReadError(_) => BAD_REQUEST,
            Known::BodyDeserializeError(_) => BAD_REQUEST,
            Known::CorsForbidden(_) => FORBIDDEN,
            Known::MissingConnectionUpgrade(_) => BAD_REQUEST,
            Known::MissingExtension(_) => INTERNAL_SERVER_ERROR,
            Known::BodyConsumedMultipleTimes(_) => INTERNAL_SERVER_ERROR,
        }
    }

    /// Returns the status code of this cause.
    pub fn status(&self) -> (code: u16)
        ensures
            code == self.spec_status(),
    {
        match self {
            Known::MethodNotAllowed(_) => METHOD_NOT_ALLOWED,
            Known::InvalidHeader(_)
            | Known::MissingHeader(_)
            | Known::MissingCookie(_)
            | Known::InvalidQuery(_)
            | Known::BodyReadError(_)
            | Known::BodyDeserializeError(_)
            | Known::MissingConnectionUpgrade(_) => BAD_REQUEST,
            Known::LengthRequired(_) => LENGTH_REQUIRED,
            Known::PayloadTooLarge(_) => PAYLOAD_TOO_LARGE,
            Known::UnsupportedMediaType(_) => UNSUPPORTED_MEDIA_TYPE,
            Known::FilePermissionError(_) | Known::CorsForbidden(_) => FORBIDDEN,
            Known::FileOpenError(_)
            | Known::MissingExtension(_)
            | Known::BodyConsumedMultipleTimes(_) => INTERNAL_SERVER_ERROR,
        }
    }

    /// The text of this cause.
    pub open spec fn spec_message(&self) -> Seq<char> {
        match self {
            Known::MethodNotAllowed(e) => e.spec_message(),
            Known::InvalidHeader(e) => e.spec_message(),
            Known::MissingHeader(e) => e.spec_message(),
            Known::MissingCookie(e) => e.spec_message(),
            Known::InvalidQuery(e) => e.spec_message(),
            Known::LengthRequired(e) => e.spec_message(),
            Known::PayloadTooLarge(e) => e.spec_message(),
            Known::UnsupportedMediaType(e) => e.spec_message(),
            Known::FileOpenError(e) => e.spec_message(),
            Known::FilePermissionError(e) => e.spec_message(),
            Known::BodyReadError(e) => e.spec_message(),
            Known::BodyDeserializeError(e) => e.spec_message(),
            Known::CorsForbidden(e) => e.spec_message(),
            Known::MissingConnectionUpgrade(e) => e.spec_message(),
            Known::MissingExtension(e) => e.spec_message(),
            Known::BodyConsumedMultipleTimes(e) => e.spec_message(),
        }
    }

    /// Returns the text of this cause.
    pub fn message(&self) -> (text: String)
        ensures
            text@ == self.spec_message(),
    {
        match self {
            Known::MethodNotAllowed(e) => e.message(),
            Known::InvalidHeader(e) => e.message(),
            Known::MissingHeader(e) => e.message(),
            Known::MissingCookie(e) => e.message(),
            Known::InvalidQuery(e) => e.message(),
            Known::LengthRequired(e) => e.message(),
            Known::PayloadTooLarge(e) => e.message(),
            Known::UnsupportedMediaType(e) => e.message(),
            Known::FileOpenError(e) => e.message(),
            Known::FilePermissionError(e) => e.message(),
            Known::BodyReadError(e) => e.message(),
            Known::BodyDeserializeError(e) => e.message(),
            Known::CorsForbidden(e) => e.message(),
            Known::MissingConnectionUpgrade(e) => e.message(),
            Known::MissingExtension(e) => e.message(),
            Known::BodyConsumedMultipleTimes(e) => e.message(),
        }
    }

    /// What `{:?}` writes for the value inside this cause.
    pub open spec fn spec_debug(&self) -> Seq<char> {
        match self {
            Known::MethodNotAllowed(_) => "MethodNotAllowed { _p: () }"@,
            Known::InvalidHeader(e) => "InvalidHeader { name: "@ + spec_debug_str(e.name@) + " }"@,
            Known::MissingHeader(e) => "MissingHeader { name: "@ + spec_debug_str(e.name@) + " }"@,
            Known::MissingCookie(e) => "MissingCookie { name: "@ + spec_debug_str(e.name@) + " }"@,
            Known::InvalidQuery(_) => "InvalidQuery { _p: () }"@,
            Known::LengthRequired(_) => "LengthRequired { _p: () }"@,
            Known::PayloadTooLarge(_) => "PayloadTooLarge { _p: () }"@,
            Known::UnsupportedMediaType(_) => "UnsupportedMediaType { _p: () }"@,
            Known::FileOpenError(_) => "FileOpenError { _p: () }"@,
            Known::FilePermissionError(_) => "FilePermissionError { _p: () }"@,
            Known::BodyReadError(e) =>
                "BodyReadError { detail: "@ + spec_debug_str(e.detail@) + " }"@,
            Known::BodyDeserializeError(e) =>
                "BodyDeserializeError { detail: "@ + spec_debug_str(e.detail@) + " }"@,
            Known::CorsForbidden(e) =>
                "CorsForbidden { detail: "@ + spec_debug_str(e.detail@) + " }"@,
            Known::MissingConnectionUpgrade(_) => "MissingConnectionUpgrade { _p: () }"@,
            Known::MissingExtension(_) => "MissingExtension { _p: () }"@,
            Known::BodyConsumedMultipleTimes(_) => "BodyConsumedMultipleTimes { _p: () }"@,
        }
    }

    /// Returns what `{:?}` writes for the value inside this cause.
    pub fn debug(&self) -> (text: String)
        ensures
            text@ == self.spec_debug(),
    {
        match self {
            Known::MethodNotAllowed(_) => String::from_str("MethodNotAllowed { _p: () }"),
            Known::InvalidHeader(e) => braced("InvalidHeader { name: ", e.name),
            Known::MissingHeader(e) => braced("MissingHeader { name: ", e.name),
            Known::MissingCookie(e) => braced("MissingCookie { name: ", e.name),
            Known::InvalidQuery(_) => String::from_str("InvalidQuery { _p: () }"),
            Known::LengthRequired(_) => String::from_str("LengthRequired { _p: () }"),
            Known::PayloadTooLarge(_) => String::from_str("PayloadTooLarge { _p: () }"),
            Known::UnsupportedMediaType(_) => String::from_str("UnsupportedMediaType { _p: () }"),
            Known::FileOpenError(_) => String::from_str("FileOpenError { _p: () }"),
            Known::FilePermissionError(_) => String::from_str("FilePermissionError { _p: () }"),
            Known::BodyReadError(e) => braced("BodyReadError { detail: ", e.detail.as_str()),
            Known::BodyDeserializeError(e) =>
                braced("BodyDeserializeError { detail: ", e.detail.as_str()),
            Known::CorsForbidden(e) => braced("CorsForbidden { detail: ", e.detail.as_str()),
            Known::MissingConnectionUpgrade(_) =>
                String::from_str("MissingConnectionUpgrade { _p: () }"),
            Known::MissingExtension(_) => String::from_str("MissingExtension { _p: () }"),
            Known::BodyConsumedMultipleTimes(_) =>
                String::from_str("BodyConsumedMultipleTimes { _p: () }"),
        }
    }

    /// Whether a lookup of a `T` in this cause may come back with `found`.
    pub closed spec fn gives<T: 'static>(&self, found: Option<&T>) -> bool {
        match self {
            Known::MethodNotAllowed(e) => call_ensures(as_type::<MethodNotAllowed, T>, (e,), found),
            Known::InvalidHeader(e) => call_ensures(as_type::<InvalidHeader, T>, (e,), found),
            Known::MissingHeader(e) => call_ensures(as_type::<MissingHeader, T>, (e,), found),
            Known::MissingCookie(e) => call_ensures(as_type::<MissingCookie, T>, (e,), found),
            Known::InvalidQuery(e) => call_ensures(as_type::<InvalidQuery, T>, (e,), found),
            Known::LengthRequired(e) => call_ensures(as_type::<LengthRequired, T>, (e,), found),
            Known::PayloadTooLarge(e) => call_ensures(as_type::<PayloadTooLarge, T>, (e,), found),
            Known::UnsupportedMediaType(e) =>
                call_ensures(as_type::<UnsupportedMediaType, T>, (e,), found),
            Known::FileOpenError(e) => call_ensures(as_type::<FileOpenError, T>, (e,), found),
            Known::FilePermissionError(e) =>
                call_ensures(as_type::<FilePermissionError, T>, (e,), found),
            Known::BodyReadError(e) => call_ensures(as_type::<BodyReadError, T>, (e,), found),
            Known::BodyDeserializeError(e) =>
                call_ensures(as_type::<BodyDeserializeError, T>, (e,), found),
            Known::CorsForbidden(e) => call_ensures(as_type::<CorsForbidden, T>, (e,), found),
            Known::MissingConnectionUpgrade(e) =>
                call_ensures(as_type::<MissingConnectionUpgrade, T>, (e,), found),
            Known::MissingExtension(e) => call_ensures(as_type::<MissingExtension, T>, (e,), found),
            Known::BodyConsumedMultipleTimes(e) =>
                call_ensures(as_type::<BodyConsumedMultipleTimes, T>, (e,), found),
        }
    }

    /// Looks for a `T` inside this cause.
    pub fn downcast<T: 'static>(&self) -> (found: Option<&T>)
        ensures
            self.gives(found),
    {
        match self {
            Known::MethodNotAllowed(e) => as_type::<MethodNotAllowed, T>(e),
            Known::InvalidHeader(e) => as_type::<InvalidHeader, T>(e),
            Known::MissingHeader(e) => as_type::<MissingHeader, T>(e),
            Known::MissingCookie(e) => as_type::<MissingCookie, T>(e),
            Known::InvalidQuery(e) => as_type::<InvalidQuery, T>(e),
            Known::LengthRequired(e) => as_type::<LengthRequired, T>(e),
            Known::PayloadTooLarge(e) => as_type::<PayloadTooLarge, T>(e),
            Known::UnsupportedMediaType(e) => as_type::<UnsupportedMediaType, T>(e),
            Known::FileOpenError(e) => as_type::<FileOpenError, T>(e),
            Known::FilePermissionError(e) => as_type::<FilePermissionError, T>(e),
            Known::BodyReadError(e) => as_type::<BodyReadError, T>(e),
            Known::BodyDeserializeError(e) => as_type::<BodyDeserializeError, T>(e),
            Known::CorsForbidden(e) => as_type::<CorsForbidden, T>(e),
            Known::MissingConnectionUpgrade(e) => as_type::<MissingConnectionUpgrade, T>(e),
            Known::MissingExtension(e) => as_type::<MissingExtension, T>(e),
            Known::BodyConsumedMultipleTimes(e) => as_type::<BodyConsumedMultipleTimes, T>(e),
        }
    }
}

/// A marker for the types that may serve as custom causes of a rejection.
///
/// It is `Sized`, so that a boxed cause cannot be boxed again and then fail
/// to be found under its own type.
pub trait Reject: Debug + Sized + Send + Sync + 'static {}

/// A value whose type has been forgotten. It holds a
/// `Box<dyn Any + Send + Sync>`, which the verifier cannot look into.
#[verifier::external_body]
#[derive(Debug)]
struct Erased {
    inner: Box<dyn Any + Send + Sync>,
}

/// Boxes `value` and forgets its type, by `Box::new` and the coercion to
/// `dyn Any`. A later `downcast_ref` to the same `T` gives `value` back.
#[verifier::external_body]
fn erase<T: Reject>(value: T) -> (erased: Erased)
    ensures
        forall|found: Option<&T>| #[trigger]
            call_ensures(recall::<T>, (&erased,), found) ==> found == Some(&value),
{
    Erased { inner: Box::new(value) }
}

/// Looks for a `T` behind the forgotten type, by `<dyn Any>::downcast_ref`.
/// Nothing is claimed of the result.
#[verifier::external_body]
fn recall<T: 'static>(erased: &Erased) -> (found: Option<&T>) {
    erased.inner.downcast_ref::<T>()
}

/// A cause that the application defined: a value of any [`Reject`] type, with
/// the text that `{:?}` wrote for it when it was handed over, or, where
/// `{:?}` gave up on it, the text that stands for none.
#[derive(Debug)]
pub struct Custom {
    text: String,
    cause: Erased,
}

/// The text that stands for a cause for which `{:?}` wrote none.
pub open spec fn spec_no_text() -> Seq<char> {
    "<unknown>"@
}

impl Custom {
    /// The text that is kept with the value.
    pub closed spec fn spec_debug(&self) -> Seq<char> {
        self.text@
    }

    /// Whether the text of this cause is one that `{:?}` may write for
    /// `err`, or, where `{:?}` may give up on `err`, the text that stands
    /// for none.
    pub closed spec fn tells<T: Debug>(&self, err: T) -> bool {
        exists|written: Option<String>| #[trigger]
            call_ensures(debug_text::<T>, (&err,), written) && self.text@ == match written {
                Some(text) => text@,
                None => spec_no_text(),
            }
    }

    /// Returns the text that is kept with the value.
    pub fn debug(&self) -> (text: &str)
        ensures
            text@ == self.spec_debug(),
    {
        self.text.as_str()
    }

    /// Whether a lookup of a `T` in this cause may come back with `found`.
    pub closed spec fn gives<T: 'static>(&self, found: Option<&T>) -> bool {
        call_ensures(recall::<T>, (&self.cause,), found)
    }

    /// Wraps a value as a cause, with the text that `{:?}` writes for it. A
    /// lookup of its own type finds it again.
    pub fn new<T: Reject>(err: T) -> (custom: Custom)
        ensures
            custom.tells(err),
            forall|found: Option<&T>| #[trigger] custom.gives(found) ==> found == Some(&err),
    {
        let text = match debug_text(&err) {
            Some(text) => text,
            None => String::from_str("<unknown>"),
        };
        Custom { text, cause: erase(err) }
    }

    /// Looks for a `T` inside this cause.
    pub fn downcast<T: 'static>(&self) -> (found: Option<&T>)
        ensures
            self.gives(found),
    {
        recall::<T>(&self.cause)
    }
}

/// One cause of a rejection.
#[derive(Debug)]
pub enum Cause {
    /// A cause that the library knows.
    Known(Known),
    /// A cause that the application defined.
    Custom(Custom),
}

/// The text that leads the body of a response to an unhandled custom cause.
pub open spec fn unhandled_lead() -> Seq<char> {
    "Unhandled rejection: "@
}

impl Cause {
    /// The status code of this cause: its own for a known one, 500 for a
    /// custom one.
    pub open spec fn spec_status(&self) -> u16 {
        match self {
            Cause::Known(known) => known.spec_status(),
            Cause::Custom(_) => INTERNAL_SERVER_ERROR,
        }
    }

    /// Returns the status code of this cause.
    pub fn status(&self) -> (code: u16)
        ensures
            code == self.spec_status(),
    {
        match self {
            Cause::Known(known) => known.status(),
            Cause::Custom(_) => INTERNAL_SERVER_ERROR,
        }
    }

    /// The body of the response to this cause: the text of a known one, and
    /// for a custom one a note that it was left unhandled.
    pub open spec fn spec_body(&self) -> Seq<char> {
        match self {
            Cause::Known(known) => known.spec_message(),
            Cause::Custom(custom) => unhandled_lead() + custom.spec_debug(),
        }
    }

    /// Returns the body of the response to this cause.
    pub fn body(&self) -> (text: String)
        ensures
            text@ == self.spec_body(),
    {
        match self {
            Cause::Known(known) => known.message(),
            Cause::Custom(custom) =>
                String::from_str("Unhandled rejection: ").concat(custom.debug()),
        }
    }

    /// The response to this cause: its status and its body, as plain text.
    pub open spec fn spec_response(&self) -> ResponseView {
        spec_text(self.spec_status(), self.spec_body())
    }

    /// Builds the response to this cause.
    pub fn as_response(&self) -> (res: Response)
        ensures
            res@ == self.spec_response(),
    {
        Response::text(self.status(), self.body())
    }

    /// What `{:?}` writes for the value inside this cause.
    pub open spec fn spec_debug(&self) -> Seq<char> {
        match self {
            Cause::Known(known) => known.spec_debug(),
            Cause::Custom(custom) => custom.spec_debug(),
        }
    }

    /// Returns what `{:?}` writes for the value inside this cause.
    pub fn debug(&self) -> (text: String)
        ensures
            text@ == self.spec_debug(),
    {
        match self {
            Cause::Known(known) => known.debug(),
            Cause::Custom(custom) => String::from_str(custom.debug()),
        }
    }

    /// Whether a lookup of a `T` in this cause may come back with `found`.
    pub open spec fn gives<T: 'static>(&self, found: Option<&T>) -> bool {
        match self {
            Cause::Known(known) => known.gives(found),
            Cause::Custom(custom) => custom.gives(found),
        }
    }

    /// Looks for a `T` inside this cause.
    pub fn downcast<T: 'static>(&self) -> (found: Option<&T>)
        ensures
            self.gives(found),
    {
        match self {
            Cause::Known(known) => known.downcast(),
            Cause::Custom(custom) => custom.downcast(),
        }
    }
}

/// How much a status code says about why a request failed. Of two causes
/// the one of higher rank is preferred: "not found" says least, "method not
/// allowed" little more, and any other code the more the greater it is.
pub open spec fn rank(status: u16) -> int {
    if status == NOT_FOUND {
        0
    } else if status == METHOD_NOT_ALLOWED {
        1
    } else {
        status + 2
    }
}

/// Whether the cause at `at` is the preferred one of `causes`: none has a
/// higher rank, and none before it has the same.
pub open spec fn is_preferred(causes: Seq<Cause>, at: int) -> bool {
    &&& 0 <= at < causes.len()
    &&& forall|j: int|
        #![trigger causes[j]]
        0 <= j < causes.len() ==> rank(causes[j].spec_status()) <= rank(causes[at].spec_status())
    &&& forall|j: int|
        #![trigger causes[j]]
        0 <= j < at ==> rank(causes[j].spec_status()) < rank(causes[at].spec_status())
}

/// The place of the preferred cause, found by going through `causes` from
/// the first to the last and keeping a cause until one of higher rank comes.
pub open spec fn preferred_index(causes: Seq<Cause>) -> int
    decreases causes.len(),
{
    if causes.len() <= 1 {
        0
    } else {
        let kept = preferred_index(causes.drop_last());
        if rank(causes[kept].spec_status()) < rank(causes.last().spec_status()) {
            causes.len() - 1
        } else {
            kept
        }
    }
}

/// The status code that `causes` resolve to: 404 where there is none, else
/// that of the preferred cause.
pub open spec fn resolved_status(causes: Seq<Cause>) -> u16 {
    if causes.len() == 0 {
        NOT_FOUND
    } else {
        causes[preferred_index(causes)].spec_status()
    }
}

/// The response that `causes` resolve to: an empty 404 where there is none,
/// else that of the preferred cause.
pub open spec fn resolved_response(causes: Seq<Cause>) -> ResponseView {
    if causes.len() == 0 {
        spec_empty(NOT_FOUND)
    } else {
        causes[preferred_index(causes)].spec_response()
    }
}

/// The place that [`preferred_index`] gives is that of the preferred cause.
pub proof fn lemma_preferred_index(causes: Seq<Cause>)
    requires
        causes.len() > 0,
    ensures
        is_preferred(causes, preferred_index(causes)),
    decreases causes.len(),
{
    if causes.len() > 1 {
        let front = causes.drop_last();
        lemma_preferred_index(front);
        let kept = preferred_index(front);
        let at = preferred_index(causes);
        assert forall|j: int| 0 <= j < causes.len() implies rank(
            #[trigger] causes[j].spec_status(),
        ) <= rank(causes[at].spec_status()) by {
            if j < front.len() {
                assert(front[j] == causes[j]);
            }
        }
        assert forall|j: int| 0 <= j < at implies rank(#[trigger] causes[j].spec_status()) < rank(
            causes[at].spec_status(),
        ) by {
            assert(front[j] == causes[j]);
        }
    }
}

/// No two causes are both the preferred one.
pub proof fn lemma_preferred_unique(causes: Seq<Cause>, one: int, other: int)
    requires
        is_preferred(causes, one),
        is_preferred(causes, other),
    ensures
        one == other,
{
    if one < other {
        assert(rank(causes[one].spec_status()) < rank(causes[other].spec_status()));
    } else if other < one {
        assert(rank(causes[other].spec_status()) < rank(causes[one].spec_status()));
    }
}

/// The preferred cause of two runs of causes, one after the other, is the
/// preferred cause of the first run, unless that of the second has a higher
/// rank.
pub proof fn lemma_preferred_concat(first: Seq<Cause>, second: Seq<Cause>)
    requires
        first.len() > 0,
        second.len() > 0,
    ensures
        preferred_index(first + second) == if rank(
            first[preferred_index(first)].spec_status(),
        ) < rank(second[preferred_index(second)].spec_status()) {
            first.len() + preferred_index(second)
        } else {
            preferred_index(first)
        },
{
    let all = first + second;
    let a = preferred_index(first);
    let b = preferred_index(second);
    lemma_preferred_index(first);
    lemma_preferred_index(second);
    lemma_preferred_index(all);
    let pick = if rank(first[a].spec_status()) < rank(second[b].spec_status()) {
        first.len() + b
    } else {
        a
    };
    assert(all[a] == first[a]);
    assert(all[first.len() + b] == second[b]);
    assert forall|j: int| 0 <= j < all.len() implies rank(#[trigger] all[j].spec_status()) <= rank(
        all[pick].spec_status(),
    ) by {
        if j < first.len() {
            assert(all[j] == first[j]);
        } else {
            assert(all[j] == second[j - first.len()]);
        }
    }
    assert forall|j: int| 0 <= j < pick implies rank(#[trigger] all[j].spec_status()) < rank(
        all[pick].spec_status(),
    ) by {
        if j < first.len() {
            assert(all[j] == first[j]);
        } else {
            assert(all[j] == second[j - first.len()]);
        }
    }
    assert(is_preferred(all, pick));
    lemma_preferred_unique(all, pick, preferred_index(all));
}

/// Whether, of two causes met in this order, the second is the preferred one.
fn second_preferred(first: u16, second: u16) -> (yes: bool)
    ensures
        yes == (rank(first) < rank(second)),
{
    if second == NOT_FOUND {
        false
    } else if first == NOT_FOUND {
        true
    } else if second == METHOD_NOT_ALLOWED {
        false
    } else if first == METHOD_NOT_ALLOWED {
        true
    } else {
        first < second
    }
}

/// Whether a search of `causes` for a `T`, from the first cause to the last,
/// may come back with `found`: with what the first cause that holds a `T`
/// gives, and with nothing only where no cause holds one.
pub open spec fn found_in<T: 'static>(causes: Seq<Cause>, found: Option<&T>) -> bool {
    match found {
        Some(_) => exists|at: int|
            0 <= at < causes.len() && #[trigger] causes[at].gives(found) && forall|j: int|
                0 <= j < at ==> #[trigger] causes[j].gives(None::<&T>),
        None => forall|j: int| 0 <= j < causes.len() ==> #[trigger] causes[j].gives(None::<&T>),
    }
}

/// What is found in a first run of causes is found in the two runs together.
pub proof fn lemma_found_in_first<T: 'static>(
    first: Seq<Cause>,
    second: Seq<Cause>,
    found: Option<&T>,
)
    requires
        found is Some,
        found_in(first, found),
    ensures
        found_in(first + second, found),
{
    let all = first + second;
    let at = choose|at: int|
        0 <= at < first.len() && #[trigger] first[at].gives(found) && forall|j: int|
            0 <= j < at ==> #[trigger] first[j].gives(None::<&T>);
    assert(all[at] == first[at]);
    assert forall|j: int| 0 <= j < at implies #[trigger] all[j].gives(None::<&T>) by {
        assert(all[j] == first[j]);
    }
}

/// Where a first run of causes holds no `T`, the search of two runs together
/// comes back with what the second gives.
pub proof fn lemma_found_in_second<T: 'static>(
    first: Seq<Cause>,
    second: Seq<Cause>,
    found: Option<&T>,
)
    requires
        found_in(first, None::<&T>),
        found_in(second, found),
    ensures
        found_in(first + second, found),
{
    let all = first + second;
    match found {
        Some(_) => {
            let at = choose|at: int|
                0 <= at < second.len() && #[trigger] second[at].gives(found) && forall|j: int|
                    0 <= j < at ==> #[trigger] second[j].gives(None::<&T>);
            let place = first.len() + at;
            assert(all[place] == second[at]);
            assert forall|j: int| 0 <= j < place implies #[trigger] all[j].gives(None::<&T>) by {
                if j < first.len() {
                    assert(all[j] == first[j]);
                } else {
                    assert(all[j] == second[j - first.len()]);
                }
            }
        },
        None => {
            assert forall|j: int| 0 <= j < all.len() implies #[trigger] all[j].gives(
                None::<&T>,
            ) by {
                if j < first.len() {
                    assert(all[j] == first[j]);
                } else {
                    assert(all[j] == second[j - first.len()]);
                }
            }
        },
    }
}

/// What `{:?}` writes for each of `causes`, with a comma and a space between
/// one and the next.
pub open spec fn spec_listing(causes: Seq<Cause>) -> Seq<char>
    decreases causes.len(),
{
    if causes.len() == 0 {
        Seq::empty()
    } else if causes.len() == 1 {
        causes[0].spec_debug()
    } else {
        spec_listing(causes.drop_last()) + ", "@ + causes.last().spec_debug()
    }
}

/// The listing of two runs of causes, one after the other, is the two
/// listings with a comma and a space between them.
pub proof fn lemma_listing_concat(first: Seq<Cause>, second: Seq<Cause>)
    requires
        first.len() > 0,
        second.len() > 0,
    ensures
        spec_listing(first + second) == spec_listing(first) + ", "@ + spec_listing(second),
    decreases second.len(),
{
    let all = first + second;
    assert(all.last() == second.last());
    if second.len() == 1 {
        assert(all.drop_last() =~= first);
        assert(second[0] == second.last());
    } else {
        assert(all.drop_last() =~= first + second.drop_last());
        lemma_listing_concat(first, second.drop_last());
        assert(spec_listing(all) =~= spec_listing(first) + ", "@ + spec_listing(second));
    }
}

/// What describes a rejection with these causes to a developer: `NotFound`,
/// the one cause, or the causes as a list, in `Rejection(..)`.
pub open spec fn spec_debug_string(causes: Seq<Cause>) -> Seq<char> {
    if causes.len() == 0 {
        "Rejection(NotFound)"@
    } else if causes.len() == 1 {
        "Rejection("@ + causes[0].spec_debug() + ")"@
    } else {
        "Rejection(["@ + spec_listing(causes) + "])"@
    }
}

/// One cause, or the causes of two rejections that met.
#[derive(Debug)]
enum Rejections {
    One(Cause),
    Combined(Box<Rejections>, Box<Rejections>),
}

#[derive(Debug)]
enum Reason {
    NotFound,
    Other(Box<Rejections>),
}

/// Why a filter did not accept a request: the causes that were met, in the
/// order in which they were met. Its view is that sequence; `not found` is
/// the rejection without a cause.
#[derive(Debug)]
pub struct Rejection {
    reason: Reason,
}

impl Rejections {
    /// The causes, from left to right.
    spec fn causes(&self) -> Seq<Cause>
        decreases self,
    {
        match self {
            Rejections::One(cause) => seq![*cause],
            Rejections::Combined(left, right) => left.causes() + right.causes(),
        }
    }

    /// There is no tree without a cause.
    proof fn lemma_has_cause(&self)
        ensures
            self.causes().len() > 0,
        decreases self,
    {
        match self {
            Rejections::One(_) => {},
            Rejections::Combined(left, right) => {
                left.lemma_has_cause();
            },
        }
    }

    /// The preferred cause: that of the left or that of the right, whichever
    /// has the higher rank, and that of the left where the ranks are equal.
    fn preferred(&self) -> (cause: &Cause)
        ensures
            self.causes().len() > 0,
            *cause == self.causes()[preferred_index(self.causes())],
        decreases self,
    {
        match self {
            Rejections::One(cause) => cause,
            Rejections::Combined(left, right) => {
                let a = left.preferred();
                let b = right.preferred();
                proof {
                    let first = left.causes();
                    let second = right.causes();
                    lemma_preferred_concat(first, second);
                    lemma_preferred_index(first);
                    lemma_preferred_index(second);
                    assert((first + second)[preferred_index(first)] == first[preferred_index(
                        first,
                    )]);
                    assert((first + second)[first.len() + preferred_index(second)]
                        == second[preferred_index(second)]);
                }
                if second_preferred(a.status(), b.status()) {
                    b
                } else {
                    a
                }
            },
        }
    }

    /// The status code of the preferred cause.
    fn status(&self) -> (code: u16)
        ensures
            code == resolved_status(self.causes()),
    {
        match self {
            Rejections::One(cause) => cause.status(),
            Rejections::Combined(..) => self.preferred().status(),
        }
    }

    /// The response to the preferred cause.
    fn as_response(&self) -> (res: Response)
        ensures
            res@ == resolved_response(self.causes()),
    {
        match self {
            Rejections::One(cause) => cause.as_response(),
            Rejections::Combined(..) => self.preferred().as_response(),
        }
    }

    /// The first cause, from left to right, that holds a `T`.
    fn find<T: 'static>(&self) -> (found: Option<&T>)
        ensures
            found_in(self.causes(), found),
        decreases self,
    {
        match self {
            Rejections::One(cause) => {
                let found = cause.downcast();
                assert(self.causes()[0] == *cause);
                found
            },
            Rejections::Combined(left, right) => {
                let first = left.find::<T>();
                if first.is_some() {
                    proof {
                        lemma_found_in_first(left.causes(), right.causes(), first);
                    }
                    first
                } else {
                    let second = right.find::<T>();
                    proof {
                        lemma_found_in_second(left.causes(), right.causes(), second);
                    }
                    second
                }
            },
        }
    }

    /// Writes the causes behind `list`, from left to right, with a comma
    /// and a space between one and the next.
    fn debug_list(&self, list: &mut String)
        ensures
            final(list)@ == old(list)@ + spec_listing(self.causes()),
        decreases self,
    {
        match self {
            Rejections::One(cause) => {
                list.append(cause.debug().as_str());
            },
            Rejections::Combined(left, right) => {
                left.debug_list(list);
                list.append(", ");
                right.debug_list(list);
                proof {
                    left.lemma_has_cause();
                    right.lemma_has_cause();
                    lemma_listing_concat(left.causes(), right.causes());
                }
            },
        }
    }
}

impl View for Rejection {
    type V = Seq<Cause>;

    closed spec fn view(&self) -> Seq<Cause> {
        match self.reason {
            Reason::NotFound => Seq::empty(),
            Reason::Other(rejections) => rejections.causes(),
        }
    }
}

/// Rejects a request with `404 Not Found`.
pub fn reject() -> (rejection: Rejection)
    ensures
        rejection@ == Seq::<Cause>::empty(),
{
    not_found()
}

/// Rejects a request with `404 Not Found`.
pub fn not_found() -> (rejection: Rejection)
    ensures
        rejection@ == Seq::<Cause>::empty(),
{
    Rejection { reason: Reason::NotFound }
}

/// Rejects a request with a cause that the library knows.
pub fn known(cause: Known) -> (rejection: Rejection)
    ensures
        rejection@ == seq![Cause::Known(cause)],
{
    Rejection::known(cause)
}

/// Rejects a request with a custom cause.
///
/// Unless it is recovered from, the rejection is answered with
/// `500 Internal Server Error`. The cause can be found again under its type.
pub fn custom<T: Reject>(err: T) -> (rejection: Rejection)
    ensures
        rejection@.len() == 1,
        rejection@[0] is Custom,
        rejection@[0]->Custom_0.tells(err),
        forall|found: Option<&T>| #[trigger] rejection@[0].gives(found) ==> found == Some(&err),
{
    Rejection::custom(Custom::new(err))
}

impl Rejection {
    /// The rejection with one known cause.
    pub fn known(cause: Known) -> (rejection: Rejection)
        ensures
            rejection@ == seq![Cause::Known(cause)],
    {
        Rejection { reason: Reason::Other(Box::new(Rejections::One(Cause::Known(cause)))) }
    }

    /// The rejection with one custom cause.
    pub fn custom(cause: Custom) -> (rejection: Rejection)
        ensures
            rejection@ == seq![Cause::Custom(cause)],
    {
        Rejection { reason: Reason::Other(Box::new(Rejections::One(Cause::Custom(cause)))) }
    }

    /// Whether this rejection has no cause, as one made by [`not_found`].
    pub fn is_not_found(&self) -> (yes: bool)
        ensures
            yes == (self@.len() == 0),
    {
        match &self.reason {
            Reason::NotFound => true,
            Reason::Other(rejections) => {
                proof {
                    rejections.lemma_has_cause();
                }
                false
            },
        }
    }

    /// Returns the cause that this rejection resolves to: the preferred one
    /// of its causes, and none for "not found".
    pub fn preferred(&self) -> (cause: Option<&Cause>)
        ensures
            cause is None <==> self@.len() == 0,
            cause matches Some(c) ==> *c == self@[preferred_index(self@)],
    {
        match &self.reason {
            Reason::NotFound => None,
            Reason::Other(rejections) => Some(rejections.preferred()),
        }
    }

    /// Searches this rejection for a cause of type `T`, from the first cause
    /// to the last, and returns the first that is found.
    pub fn find<T: 'static>(&self) -> (found: Option<&T>)
        ensures
            found_in(self@, found),
    {
        match &self.reason {
            Reason::NotFound => None,
            Reason::Other(rejections) => rejections.find(),
        }
    }

    /// Describes this rejection to a developer: `Rejection(NotFound)`, the
    /// one cause, or the causes as a list.
    pub fn debug_string(&self) -> (text: String)
        ensures
            text@ == spec_debug_string(self@),
    {
        match &self.reason {
            Reason::NotFound => String::from_str("Rejection(NotFound)"),
            Reason::Other(rejections) => match &**rejections {
                Rejections::One(cause) => String::from_str("Rejection(").concat(
                    cause.debug().as_str(),
                ).concat(")"),
                Rejections::Combined(left, right) => {
                    let mut text = String::from_str("Rejection([");
                    left.debug_list(&mut text);
                    text.append(", ");
                    right.debug_list(&mut text);
                    text.append("])");
                    proof {
                        left.lemma_has_cause();
                        right.lemma_has_cause();
                        lemma_listing_concat(left.causes(), right.causes());
                        assert(text@ =~= spec_debug_string(self@));
                    }
                    text
                },
            },
        }
    }
}

impl<T: Reject> From<T> for Rejection {
    /// The rejection with `err` as its one, custom, cause.
    fn from(err: T) -> (rejection: Rejection)
        ensures
            rejection@.len() == 1,
            rejection@[0] is Custom,
            rejection@[0]->Custom_0.tells(err),
            forall|found: Option<&T>| #[trigger] rejection@[0].gives(found) ==> found == Some(&err),
    {
        custom(err)
    }
}

/// What the conversion gives is told by what `from` ensures: the text that
/// goes with a custom cause is no function of the cause.
impl<T: Reject> vstd::std_specs::convert::FromSpecImpl<T> for Rejection {
    open spec fn obeys_from_spec() -> bool {
        false
    }

    open spec fn from_spec(err: T) -> Rejection {
        arbitrary()
    }
}

impl IsReject for Rejection {
    /// The status code that the causes resolve to.
    open spec fn spec_status(&self) -> u16 {
        resolved_status(self@)
    }

    /// The response that the causes resolve to.
    open spec fn spec_response(&self) -> ResponseView {
        resolved_response(self@)
    }

    fn status(&self) -> (code: u16) {
        match &self.reason {
            Reason::NotFound => NOT_FOUND,
            Reason::Other(other) => other.status(),
        }
    }

    fn as_response(&self) -> (res: Response) {
        match &self.reason {
            Reason::NotFound => Response::empty(NOT_FOUND),
            Reason::Other(other) => other.as_response(),
        }
    }
}

/// The type of an error that cannot happen has no value, so none of this is
/// ever called.
impl IsReject for Infallible {
    open spec fn spec_status(&self) -> u16 {
        INTERNAL_SERVER_ERROR
    }

    open spec fn spec_response(&self) -> ResponseView {
        spec_empty(INTERNAL_SERVER_ERROR)
    }

    fn status(&self) -> (code: u16) {
        INTERNAL_SERVER_ERROR
    }

    fn as_response(&self) -> (res: Response) {
        Response::empty(INTERNAL_SERVER_ERROR)
    }
}

/// How the errors of two filters become one.
///
/// `Self` is the error of the filter that is tried first, `E` that of the
/// filter that is tried second.
pub trait CombineRejection<E>: Send + Sized {
    /// The type of the error when only one of the two occurs, as for two
    /// filters in sequence.
    type One: IsReject;

    /// The type of the error when both occur and are combined, as for two
    /// alternatives.
    type Combined: IsReject;

    /// The first error, alone.
    spec fn spec_first(self) -> Self::One;

    /// The second error, alone.
    spec fn spec_second(other: E) -> Self::One;

    /// Both errors together.
    spec fn spec_combine(self, other: E) -> Self::Combined;

    /// Returns the first error, alone.
    fn first(self) -> (one: Self::One)
        ensures
            one == self.spec_first(),
    ;

    /// Returns the second error, alone.
    fn second(other: E) -> (one: Self::One)
        ensures
            one == Self::spec_second(other),
    ;

    /// Combines both errors into one.
    fn combine(self, other: E) -> (combined: Self::Combined)
        ensures
            combined == self.spec_combine(other),
    ;
}

impl CombineRejection<Rejection> for Rejection {
    type One = Rejection;

    type Combined = Rejection;

    open spec fn spec_first(self) -> Rejection {
        self
    }

    open spec fn spec_second(other: Rejection) -> Rejection {
        other
    }

    /// The rejection with the causes of `self`, then those of `other`.
    closed spec fn spec_combine(self, other: Rejection) -> Rejection {
        Rejection {
            reason: match self.reason {
                Reason::Other(left) => match other.reason {
                    Reason::Other(right) => Reason::Other(
                        Box::new(Rejections::Combined(left, right)),
                    ),
                    Reason::NotFound => Reason::Other(left),
                },
                Reason::NotFound => other.reason,
            },
        }
    }

    fn first(self) -> (one: Rejection) {
        self
    }

    fn second(other: Rejection) -> (one: Rejection) {
        other
    }

    fn combine(self, other: Rejection) -> (combined: Rejection)
        ensures
            combined@ == self@ + other@,
    {
        proof {
            lemma_combine(self, other);
        }
        let reason = match (self.reason, other.reason) {
            (Reason::Other(left), Reason::Other(right)) => {
                Reason::Other(Box::new(Rejections::Combined(left, right)))
            },
            (Reason::Other(other), Reason::NotFound) | (Reason::NotFound, Reason::Other(other)) => {
                // ignore the NotFound
                Reason::Other(other)
            },
            (Reason::NotFound, Reason::NotFound) => Reason::NotFound,
        };
        Rejection { reason }
    }
}

impl CombineRejection<Infallible> for Rejection {
    type One = Rejection;

    type Combined = Infallible;

    open spec fn spec_first(self) -> Rejection {
        self
    }

    /// There is no second error to stand alone.
    closed spec fn spec_second(other: Infallible) -> Rejection {
        Rejection { reason: Reason::NotFound }
    }

    open spec fn spec_combine(self, other: Infallible) -> Infallible {
        other
    }

    fn first(self) -> (one: Rejection) {
        self
    }

    fn second(other: Infallible) -> (one: Rejection) {
        Rejection { reason: Reason::NotFound }
    }

    fn combine(self, other: Infallible) -> (combined: Infallible) {
        other
    }
}

impl CombineRejection<Rejection> for Infallible {
    type One = Rejection;

    type Combined = Infallible;

    /// There is no first error to stand alone.
    closed spec fn spec_first(self) -> Rejection {
        Rejection { reason: Reason::NotFound }
    }

    open spec fn spec_second(other: Rejection) -> Rejection {
        other
    }

    open spec fn spec_combine(self, other: Rejection) -> Infallible {
        self
    }

    fn first(self) -> (one: Rejection) {
        Rejection { reason: Reason::NotFound }
    }

    fn second(other: Rejection) -> (one: Rejection) {
        other
    }

    fn combine(self, other: Rejection) -> (combined: Infallible) {
        self
    }
}

impl CombineRejection<Infallible> for Infallible {
    type One = Infallible;

    type Combined = Infallible;

    open spec fn spec_first(self) -> Infallible {
        self
    }

    open spec fn spec_second(other: Infallible) -> Infallible {
        other
    }

    open spec fn spec_combine(self, other: Infallible) -> Infallible {
        self
    }

    fn first(self) -> (one: Infallible) {
        self
    }

    fn second(other: Infallible) -> (one: Infallible) {
        other
    }

    fn combine(self, other: Infallible) -> (combined: Infallible) {
        self
    }
}

/// The causes of two rejections combined are the causes of the first, then
/// those of the second.
pub proof fn lemma_combine(first: Rejection, second: Rejection)
    ensures
        first.spec_combine(second)@ == first@ + second@,
{
    assert(first.spec_combine(second)@ =~= first@ + second@);
}

/// 400 Bad Request: the query string could not be read.
pub fn invalid_query() -> (rejection: Rejection)
    ensures
        rejection@.len() == 1,
        rejection@[0] matches Cause::Known(Known::InvalidQuery(_)),
{
    known(Known::InvalidQuery(InvalidQuery { _p: () }))
}

/// 400 Bad Request: a header that is required is missing.
pub fn missing_header(name: &'static str) -> (rejection: Rejection)
    ensures
        rejection@ == seq![Cause::Known(Known::MissingHeader((MissingHeader { name })))],
{
    known(Known::MissingHeader(MissingHeader { name }))
}

/// 400 Bad Request: a header does not hold what is required.
pub fn invalid_header(name: &'static str) -> (rejection: Rejection)
    ensures
        rejection@ == seq![Cause::Known(Known::InvalidHeader((InvalidHeader { name })))],
{
    known(Known::InvalidHeader(InvalidHeader { name }))
}

/// 400 Bad Request: a cookie that is required is missing.
pub fn missing_cookie(name: &'static str) -> (rejection: Rejection)
    ensures
        rejection@ == seq![Cause::Known(Known::MissingCookie((MissingCookie { name })))],
{
    known(Known::MissingCookie(MissingCookie { name }))
}

/// 405 Method Not Allowed
pub fn method_not_allowed() -> (rejection: Rejection)
    ensures
        rejection@.len() == 1,
        rejection@[0] matches Cause::Known(Known::MethodNotAllowed(_)),
{
    known(Known::MethodNotAllowed(MethodNotAllowed { _p: () }))
}

/// 411 Length Required
pub fn length_required() -> (rejection: Rejection)
    ensures
        rejection@.len() == 1,
        rejection@[0] matches Cause::Known(Known::LengthRequired(_)),
{
    known(Known::LengthRequired(LengthRequired { _p: () }))
}

/// 413 Payload Too Large
pub fn payload_too_large() -> (rejection: Rejection)
    ensures
        rejection@.len() == 1,
        rejection@[0] matches Cause::Known(Known::PayloadTooLarge(_)),
{
    known(Known::PayloadTooLarge(PayloadTooLarge { _p: () }))
}

/// 415 Unsupported Media Type: the body is of a type that cannot be
/// read.
pub fn unsupported_media_type() -> (rejection: Rejection)
    ensures
        rejection@.len() == 1,
        rejection@[0] matches Cause::Known(Known::UnsupportedMediaType(_)),
{
    known(Known::UnsupportedMediaType(UnsupportedMediaType { _p: () }))
}

/// Every cause says more than "not found": its status code is another, and
/// its rank is above that of 404.
pub proof fn lemma_cause_rank(cause: Cause)
    ensures
        cause.spec_status() != NOT_FOUND,
        rank(cause.spec_status()) >= 1,
{
}

/// The response that causes resolve to carries the status code that they
/// resolve to.
pub proof fn lemma_response_status(causes: Seq<Cause>)
    ensures
        resolved_response(causes).status == resolved_status(causes),
{
}

/// Two runs of causes, one after the other, resolve as the run whose own
/// resolution has the higher rank, and as the first where the ranks are equal.
pub proof fn lemma_resolved_concat(first: Seq<Cause>, second: Seq<Cause>)
    ensures
        rank(resolved_status(first)) < rank(resolved_status(second)) ==> {
            &&& resolved_status(first + second) == resolved_status(second)
            &&& resolved_response(first + second) == resolved_response(second)
        },
        rank(resolved_status(first)) >= rank(resolved_status(second)) ==> {
            &&& resolved_status(first + second) == resolved_status(first)
            &&& resolved_response(first + second) == resolved_response(first)
        },
{
    if first.len() == 0 {
        assert(first + second =~= second);
        if second.len() > 0 {
            lemma_preferred_index(second);
            lemma_cause_rank(second[preferred_index(second)]);
        }
    } else if second.len() == 0 {
        assert(first + second =~= first);
        lemma_preferred_index(first);
        lemma_cause_rank(first[preferred_index(first)]);
    } else {
        lemma_preferred_concat(first, second);
        lemma_preferred_index(first);
        lemma_preferred_index(second);
        assert((first + second)[preferred_index(first)] == first[preferred_index(first)]);
        assert((first + second)[first.len() + preferred_index(second)] == second[preferred_index(
            second,
        )]);
    }
}

/// "Not found" is the weakest rejection: combined with any other, before it
/// or after it, it leaves that other's causes, and so its status code and its
/// response.
pub proof fn lemma_not_found_is_weakest(nothing: Rejection, other: Rejection)
    requires
        nothing@.len() == 0,
    ensures
        nothing.spec_combine(other)@ == other@,
        other.spec_combine(nothing)@ == other@,
        nothing.spec_combine(other).spec_status() == other.spec_status(),
        other.spec_combine(nothing).spec_status() == other.spec_status(),
        nothing.spec_combine(other).spec_response() == other.spec_response(),
        other.spec_combine(nothing).spec_response() == other.spec_response(),
{
    lemma_combine(nothing, other);
    lemma_combine(other, nothing);
    assert(nothing@ + other@ =~= other@);
    assert(other@ + nothing@ =~= other@);
}

/// "Method not allowed" is weak: combined with a rejection that resolves to
/// anything but itself or "not found", before it or after it, it gives way
/// to that rejection's status code and response.
pub proof fn lemma_method_not_allowed_is_weak(method: Rejection, other: Rejection)
    requires
        method.spec_status() == METHOD_NOT_ALLOWED,
        other.spec_status() != METHOD_NOT_ALLOWED,
        other.spec_status() != NOT_FOUND,
    ensures
        method.spec_combine(other).spec_status() == other.spec_status(),
        other.spec_combine(method).spec_status() == other.spec_status(),
        method.spec_combine(other).spec_response() == other.spec_response(),
        other.spec_combine(method).spec_response() == other.spec_response(),
{
    lemma_combine(method, other);
    lemma_combine(other, method);
    lemma_resolved_concat(method@, other@);
    lemma_resolved_concat(other@, method@);
}

/// Where two rejections resolve to the same status code, their combination
/// resolves as the first of them.
pub proof fn lemma_first_wins_ties(first: Rejection, second: Rejection)
    requires
        first.spec_status() == second.spec_status(),
    ensures
        first.spec_combine(second).spec_status() == first.spec_status(),
        first.spec_combine(second).spec_response() == first.spec_response(),
{
    lemma_combine(first, second);
    lemma_resolved_concat(first@, second@);
}

/// Combining is associative in the causes.
pub proof fn lemma_combine_associative(a: Rejection, b: Rejection, c: Rejection)
    ensures
        a.spec_combine(b).spec_combine(c)@ == a.spec_combine(b.spec_combine(c))@,
{
    lemma_combine(a, b);
    lemma_combine(a.spec_combine(b), c);
    lemma_combine(b, c);
    lemma_combine(a, b.spec_combine(c));
    assert((a@ + b@) + c@ =~= a@ + (b@ + c@));
}

/// The search goes through all causes: where a cause holds a `T` and none
/// before it does, the search comes back with what that cause gives.
pub proof fn lemma_found_at<T: 'static>(causes: Seq<Cause>, at: int, found: Option<&T>)
    requires
        0 <= at < causes.len(),
        found_in(causes, found),
        forall|any: Option<&T>| #[trigger] causes[at].gives(any) ==> any is Some,
        forall|j: int, any: Option<&T>|
            0 <= j < at && #[trigger] causes[j].gives(any) ==> any is None,
    ensures
        found is Some,
        causes[at].gives(found),
{
    match found {
        Some(_) => {
            let place = choose|place: int|
                0 <= place < causes.len() && #[trigger] causes[place].gives(found) && forall|
                    j: int,
                | 0 <= j < place ==> #[trigger] causes[j].gives(None::<&T>);
            if place < at {
                assert(causes[place].gives(found));
            } else if at < place {
                assert(causes[at].gives(None::<&T>));
            }
        },
        None => {
            assert(causes[at].gives(None::<&T>));
        },
    }
}

/// A cause is found again under its own type: where the first cause of a
/// rejection gives nothing but `value` to a search for a `T`, as a custom
/// cause made of `value` does, the search of the rejection for a `T` comes
/// back with `value`, whatever causes follow.
pub proof fn lemma_first_cause_found<T: 'static>(causes: Seq<Cause>, value: &T, found: Option<&T>)
    requires
        causes.len() > 0,
        forall|any: Option<&T>| #[trigger] causes[0].gives(any) ==> any == Some(value),
        found_in(causes, found),
    ensures
        found == Some(value),
{
    lemma_found_at(causes, 0, found);
}

/// A custom cause among rejections that are "not found" is what they all
/// resolve to: `500 Internal Server Error`, with a body that tells the cause.
pub proof fn lemma_custom_among_not_found(
    a: Rejection,
    b: Rejection,
    custom: Rejection,
    c: Rejection,
)
    requires
        a@.len() == 0,
        b@.len() == 0,
        c@.len() == 0,
        custom@.len() == 1,
        custom@[0] is Custom,
    ensures
        a.spec_combine(b).spec_combine(custom).spec_combine(c)@ == custom@,
        a.spec_combine(b).spec_combine(custom).spec_combine(c).spec_status()
            == INTERNAL_SERVER_ERROR,
        a.spec_combine(b).spec_combine(custom).spec_combine(c).spec_response() == spec_text(
            INTERNAL_SERVER_ERROR,
            unhandled_lead() + custom@[0]->Custom_0.spec_debug(),
        ),
{
    let ab = a.spec_combine(b);
    lemma_not_found_is_weakest(a, b);
    lemma_not_found_is_weakest(ab, custom);
    lemma_not_found_is_weakest(c, ab.spec_combine(custom));
}

} // verus!
