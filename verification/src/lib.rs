//! Request construction and parameter validation for the Flightradar24 REST API.
//!
//! The crate turns a partially populated [`client::FullLiveFlightQuery`] into the
//! query string of a request, decides for each endpoint whether the supplied
//! parameters are sufficient, and builds the request that a transport has to
//! send. Sending the request and decoding the body are left to the caller.

pub mod client;
pub mod error;
pub mod flight_tracks_helper;
pub mod query;
pub mod records;
pub mod serializer;
pub mod text;
pub mod validators;
