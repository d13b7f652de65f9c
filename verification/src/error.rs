//! The single error type reported by every operation of the crate.

use vstd::prelude::*;
use vstd::string::*;

verus! {

/// `reqwest::Error`, the error of the HTTP transport. It is carried through
/// unchanged and nothing is known of what it holds.
#[verifier::external_type_specification]
#[verifier::external_body]
pub struct ExReqwestError(reqwest::Error);

/// Everything that can go wrong while preparing or completing a request.
#[derive(Debug)]
pub enum FlightRadarError {
    /// Errors returned by the HTTP client.
    Http(reqwest::Error),
    /// Errors that occur during parsing.
    Parsing(String),
    /// A general error with a message.
    General(String),
    /// Invalid parameter passed to the API.
    Parameter(String),
}

/// The mathematical content of a [`FlightRadarError`]: its kind and its text.
pub ghost enum ErrorModel {
    Http(reqwest::Error),
    Parsing(Seq<char>),
    General(Seq<char>),
    Parameter(Seq<char>),
}

impl View for FlightRadarError {
    type V = ErrorModel;

    open spec fn view(&self) -> ErrorModel {
        match *self {
            FlightRadarError::Http(err) => ErrorModel::Http(err),
            FlightRadarError::Parsing(msg) => ErrorModel::Parsing(msg@),
            FlightRadarError::General(msg) => ErrorModel::General(msg@),
            FlightRadarError::Parameter(msg) => ErrorModel::Parameter(msg@),
        }
    }
}

/// The text reported for a body that could not be decoded: the decoder's
/// reason, a line break, and the raw body after the word `Response: `.
pub open spec fn undecodable_text(reason: Seq<char>, body: Seq<char>) -> Seq<char> {
    reason + "\nResponse: "@ + body
}

/// The text of a rejected parameter: the label of the dimension, then the value.
pub open spec fn rejection_text(label: Seq<char>, value: Seq<char>) -> Seq<char> {
    label + value
}

/// `reqwest::Error`'s `Display` rendering, obtained through `to_string`. The
/// text depends on the failure and is not described here.
#[verifier::external_body]
fn transport_error_text(err: &reqwest::Error) -> (text: String) {
    err.to_string()
}

impl FlightRadarError {
    /// A parameter rejection naming the dimension and the offending value.
    pub fn parameter(label: &str, value: &str) -> (err: FlightRadarError)
        ensures
            err@ == ErrorModel::Parameter(rejection_text(label@, value@)),
    {
        let mut msg = String::from_str(label);
        msg.append(value);
        FlightRadarError::Parameter(msg)
    }

    /// The error reported when a body could not be decoded. It keeps the
    /// decoder's reason and the raw body.
    pub fn undecodable(reason: &str, body: &str) -> (err: FlightRadarError)
        ensures
            err@ == ErrorModel::Parsing(undecodable_text(reason@, body@)),
    {
        let mut msg = String::from_str(reason);
        msg.append("\nResponse: ");
        msg.append(body);
        FlightRadarError::Parsing(msg)
    }

    /// The human-readable form of the error: a prefix that names the kind,
    /// followed by the carried text.
    pub fn message(&self) -> (text: String)
        ensures
            match self@ {
                ErrorModel::Http(_) => "HTTP error: "@.is_prefix_of(text@),
                ErrorModel::Parsing(msg) => text@ == "Parsing error: "@ + msg,
                ErrorModel::General(msg) => text@ == "Error: "@ + msg,
                ErrorModel::Parameter(msg) => text@ == "Invalid Parameter: "@ + msg,
            },
    {
        match self {
            FlightRadarError::Http(err) => {
                let mut text = String::from_str("HTTP error: ");
                let detail = transport_error_text(err);
                text.append(detail.as_str());
                text
            },
            FlightRadarError::Parsing(msg) => {
                let mut text = String::from_str("Parsing error: ");
                text.append(msg.as_str());
                text
            },
            FlightRadarError::General(msg) => {
                let mut text = String::from_str("Error: ");
                text.append(msg.as_str());
                text
            },
            FlightRadarError::Parameter(msg) => {
                let mut text = String::from_str("Invalid Parameter: ");
                text.append(msg.as_str());
                text
            },
        }
    }

    /// The transport error underneath, present for the `Http` kind only.
    pub fn source(&self) -> (cause: Option<&reqwest::Error>)
        ensures
            match *self {
                FlightRadarError::Http(err) => cause == Some(&err),
                _ => cause is None,
            },
    {
        match self {
            FlightRadarError::Http(err) => Some(err),
            _ => None,
        }
    }
}

impl From<reqwest::Error> for FlightRadarError {
    fn from(err: reqwest::Error) -> (wrapped: FlightRadarError) {
        FlightRadarError::Http(err)
    }
}

impl vstd::std_specs::convert::FromSpecImpl<reqwest::Error> for FlightRadarError {
    open spec fn obeys_from_spec() -> bool {
        true
    }

    open spec fn from_spec(err: reqwest::Error) -> FlightRadarError {
        FlightRadarError::Http(err)
    }
}

} // verus!
