//! The client handle and one operation per endpoint. Every operation checks
//! its arguments and answers with the request to send, or with the reason
//! why no request may be sent.

use vstd::prelude::*;
use vstd::string::*;
use crate::error::{rejection_text, ErrorModel, FlightRadarError};
pub use crate::query::{ApiRange, ApiRangeEnum, Bounds, FullLiveFlightQuery};
pub use crate::records::{
    Airline, Airport, AirportLite, ApiEndpointUsage, ApiUsageResponse, Country, Flight,
    FullLiveFlightData, FullLiveFlightResponse, LightLiveFlightData, LightLiveFlightResponse,
    Timezone, Track,
};
use crate::serializer::{
    lemma_serialized_rejection_persists, serialized, serialized_prefix, serializes,
    write_dimension, Dimension, DIMENSIONS,
};
use crate::text::{decimal_text, push_decimal};
use crate::validators::{is_flight_id, is_usage_period, is_usage_period_str, parses_as_hex};

verus! {

/// The base URL that a new client talks to.
pub open spec fn default_base_url() -> Seq<char> {
    "https://fr24api.flightradar24.com/api/"@
}

/// The earliest moment, in seconds since the Unix epoch, for which historic
/// positions can be asked.
pub const MIN_TIMESTAMP: u64 = 1462924800;

/// The text of the rejection of a query that populates none of the
/// dimensions an endpoint needs.
pub open spec fn missing_parameters_text() -> Seq<char> {
    "Missing One Of Required Parameters"@
}

/// A query string without its first character, the `?` or `&` that opens it.
pub open spec fn without_lead(s: Seq<char>) -> Seq<char> {
    if s.len() == 0 {
        s
    } else {
        s.subrange(1, s.len() as int)
    }
}

/// The URL of a live-positions request, or the text of the rejection: the
/// query must populate a dimension that the live endpoints filter on, and
/// every candidate in it must be valid.
pub open spec fn live_url(
    base: Seq<char>,
    path: Seq<char>,
    query: Option<&FullLiveFlightQuery>,
) -> Result<Seq<char>, Seq<char>> {
    match query {
        None => Err(missing_parameters_text()),
        Some(query) => if !query.is_live_queryable() {
            Err(missing_parameters_text())
        } else {
            match serialized(*query) {
                Err(msg) => Err(msg),
                Ok(text) => Ok(base + path + text),
            }
        },
    }
}

/// The URL of a historic-positions request, or the text of the rejection.
/// The timestamp is checked first, then the populated dimensions, then the
/// candidates.
pub open spec fn historic_url(
    base: Seq<char>,
    path: Seq<char>,
    timestamp: u64,
    query: Option<&FullLiveFlightQuery>,
) -> Result<Seq<char>, Seq<char>> {
    if timestamp < MIN_TIMESTAMP {
        Err(rejection_text("Invalid Timestamp: "@, decimal_text(timestamp as nat)))
    } else {
        match query {
            None => Err(missing_parameters_text()),
            Some(query) => if !query.is_historic_queryable() {
                Err(missing_parameters_text())
            } else {
                match serialized(*query) {
                    Err(msg) => Err(msg),
                    Ok(text) => Ok(
                        base + path + "?timestamp="@ + decimal_text(timestamp as nat) + seq!['&']
                            + without_lead(text),
                    ),
                }
            },
        }
    }
}

/// The URL of a flight-tracks request, or the text of the rejection.
pub open spec fn flight_tracks_url(base: Seq<char>, flight_id: Seq<char>) -> Result<
    Seq<char>,
    Seq<char>,
> {
    if is_flight_id(flight_id) {
        Ok(base + "flight-tracks?flight_id="@ + flight_id)
    } else {
        Err(rejection_text("Flight ID Not Hexadecimal: "@, flight_id))
    }
}

/// The URL of a usage request, or the text of the rejection.
pub open spec fn api_usage_url(base: Seq<char>, period: Seq<char>) -> Result<
    Seq<char>,
    Seq<char>,
> {
    if is_usage_period(period) {
        Ok(base + "usage?period="@ + period)
    } else {
        Err("Period: "@ + period + ". Should be: 24h|7d|30d|1y"@)
    }
}

/// The record that the body of an answer is to be decoded into.
#[derive(Clone, Copy, Debug, PartialEq, Eq, Structural)]
pub enum ResponseShape {
    /// The body is handed on as text.
    Text,
    /// An [`Airline`].
    Airline,
    /// An [`Airport`].
    Airport,
    /// An [`AirportLite`].
    AirportLite,
    /// A [`FullLiveFlightResponse`].
    FullFlightPositions,
    /// A [`LightLiveFlightResponse`].
    LightFlightPositions,
    /// A list of [`Flight`]s with their tracks.
    FlightTracks,
    /// An [`ApiUsageResponse`].
    ApiUsage,
}

/// A GET request as the transport has to send it, and the shape in which
/// the answer is expected.
#[derive(Debug)]
pub struct ApiRequest {
    /// The full URL.
    pub url: String,
    /// The name of the one header that every request carries.
    pub header_name: String,
    /// The value of that header.
    pub header_value: String,
    /// The token of the bearer authorization.
    pub bearer_token: String,
    /// The record to decode the body into.
    pub expects: ResponseShape,
}

/// The handle through which requests are made: an API key and a base URL.
pub struct FlightRadarClient {
    base_url: String,
    api_key: String,
}

impl FlightRadarClient {
    /// The base URL that the endpoints' paths are appended to.
    pub closed spec fn base(&self) -> Seq<char> {
        self.base_url@
    }

    /// The API key, sent as bearer token.
    pub closed spec fn key(&self) -> Seq<char> {
        self.api_key@
    }

    /// `request` is the GET request that this client sends to `url`: version
    /// header `Accept-Version: v1`, the API key as bearer token, and the
    /// answer expected in the given shape.
    pub open spec fn sends(&self, request: ApiRequest, url: Seq<char>, shape: ResponseShape) -> bool {
        &&& request.url@ == url
        &&& request.header_name@ == "Accept-Version"@
        &&& request.header_value@ == "v1"@
        &&& request.bearer_token@ == self.key()
        &&& request.expects == shape
    }

    /// An operation's answer agrees with its outcome: the request to the
    /// URL, or a parameter error with the rejection text.
    pub open spec fn answers(
        &self,
        result: Result<ApiRequest, FlightRadarError>,
        outcome: Result<Seq<char>, Seq<char>>,
        shape: ResponseShape,
    ) -> bool {
        match result {
            Ok(request) => outcome matches Ok(url) && self.sends(request, url, shape),
            Err(err) => outcome matches Err(msg) && err@ == ErrorModel::Parameter(msg),
        }
    }

    /// Creates a client for the production API.
    pub fn new(api_key: String) -> (client: FlightRadarClient)
        ensures
            client.key() == api_key@,
            client.base() == default_base_url(),
    {
        FlightRadarClient {
            base_url: "https://fr24api.flightradar24.com/api/".to_owned(),
            api_key,
        }
    }

    /// Points the client at another base URL, for instance a sandbox.
    pub fn update_base_url(&mut self, base_url: String)
        ensures
            final(self).base() == base_url@,
            final(self).key() == old(self).key(),
    {
        self.base_url = base_url;
    }

    /// The base URL in use.
    pub fn base_url(&self) -> (url: &str)
        ensures
            url@ == self.base(),
    {
        self.base_url.as_str()
    }

    /// The API key in use.
    pub fn api_key(&self) -> (key: &str)
        ensures
            key@ == self.key(),
    {
        self.api_key.as_str()
    }

    /// Builds the query string of a query: the segments of the populated
    /// dimensions in the fixed order, or the first rejection.
    pub fn build_query_params(params: &FullLiveFlightQuery) -> (result: Result<
        String,
        FlightRadarError,
    >)
        ensures
            serializes(result, *params),
    {
        let mut url = String::new();
        let mut position: usize = 0;
        while position < DIMENSIONS
            invariant
                position <= DIMENSIONS,
                serialized_prefix(*params, position as nat) == Ok::<Seq<char>, Seq<char>>(url@),
            decreases DIMENSIONS - position,
        {
            match write_dimension(&mut url, params, Dimension::at(position)) {
                Ok(()) => {},
                Err(err) => {
                    proof {
                        lemma_serialized_rejection_persists(*params, (position + 1) as nat);
                    }
                    return Err(err);
                },
            }
            position = position + 1;
        }
        Ok(url)
    }

    /// Whether the query populates a dimension that the live endpoints
    /// filter on.
    pub fn check_live_parameters(query_in: &FullLiveFlightQuery) -> (queryable: bool)
        ensures
            queryable == query_in.is_live_queryable(),
    {
        Self::check_historic_parameters(query_in) || query_in.airspaces.is_some()
    }

    /// Whether the query populates a dimension that the historic endpoints
    /// filter on.
    pub fn check_historic_parameters(query_in: &FullLiveFlightQuery) -> (queryable: bool)
        ensures
            queryable == query_in.is_historic_queryable(),
    {
        query_in.aircraft.is_some() || query_in.airports.is_some()
            || query_in.altitude_ranges.is_some() || query_in.bounds.is_some()
            || query_in.callsigns.is_some() || query_in.categories.is_some()
            || query_in.data_sources.is_some() || query_in.flights.is_some()
            || query_in.gspeed.is_some() || query_in.operating_as.is_some()
            || query_in.painted_as.is_some() || query_in.registrations.is_some()
            || query_in.routes.is_some() || query_in.squawks.is_some()
    }

    /// The GET request to `url`, with the version header and the API key.
    /// The body of the answer is wanted as text.
    pub fn query_endpoint(&self, url: String) -> (request: ApiRequest)
        ensures
            self.sends(request, url@, ResponseShape::Text),
    {
        self.request(url, ResponseShape::Text)
    }

    fn request(&self, url: String, shape: ResponseShape) -> (request: ApiRequest)
        ensures
            self.sends(request, url@, shape),
    {
        ApiRequest {
            url,
            header_name: "Accept-Version".to_owned(),
            header_value: "v1".to_owned(),
            bearer_token: self.api_key.clone(),
            expects: shape,
        }
    }

    fn static_request(&self, path: &str, code: &str, detail: &str, shape: ResponseShape) -> (request:
        ApiRequest)
        ensures
            self.sends(request, self.base() + path@ + code@ + detail@, shape),
    {
        let mut url = self.base_url.clone();
        url.append(path);
        url.append(code);
        url.append(detail);
        self.request(url, shape)
    }

    /// The request for an airline by its ICAO code.
    pub fn get_airline_by_icao(&self, icao: &str) -> (request: ApiRequest)
        ensures
            self.sends(
                request,
                self.base() + "static/airlines/"@ + icao@ + "/light"@,
                ResponseShape::Airline,
            ),
    {
        self.static_request("static/airlines/", icao, "/light", ResponseShape::Airline)
    }

    /// The request for the full record of an airport by its code.
    pub fn get_airport_by_code(&self, code: &str) -> (request: ApiRequest)
        ensures
            self.sends(
                request,
                self.base() + "static/airports/"@ + code@ + "/full"@,
                ResponseShape::Airport,
            ),
    {
        self.static_request("static/airports/", code, "/full", ResponseShape::Airport)
    }

    /// The request for the short record of an airport by its code.
    pub fn get_airport_lite_by_code(&self, code: &str) -> (request: ApiRequest)
        ensures
            self.sends(
                request,
                self.base() + "static/airports/"@ + code@ + "/light"@,
                ResponseShape::AirportLite,
            ),
    {
        self.static_request("static/airports/", code, "/light", ResponseShape::AirportLite)
    }

    fn live_request(
        &self,
        path: &str,
        other_queries: Option<&FullLiveFlightQuery>,
        shape: ResponseShape,
    ) -> (result: Result<ApiRequest, FlightRadarError>)
        ensures
            self.answers(result, live_url(self.base(), path@, other_queries), shape),
    {
        let query = match other_queries {
            Some(query) => query,
            None => {
                return Err(Self::missing_parameters());
            },
        };
        if !Self::check_live_parameters(query) {
            return Err(Self::missing_parameters());
        }
        let params_back = match Self::build_query_params(query) {
            Ok(text) => text,
            Err(err) => {
                return Err(err);
            },
        };
        let mut url = self.base_url.clone();
        url.append(path);
        url.append(params_back.as_str());
        Ok(self.request(url, shape))
    }

    fn historic_request(
        &self,
        path: &str,
        timestamp: u64,
        other_queries: Option<&FullLiveFlightQuery>,
        shape: ResponseShape,
    ) -> (result: Result<ApiRequest, FlightRadarError>)
        ensures
            self.answers(result, historic_url(self.base(), path@, timestamp, other_queries), shape),
    {
        let mut stamp = String::new();
        push_decimal(&mut stamp, timestamp);
        assert(stamp@ =~= decimal_text(timestamp as nat));
        if timestamp < MIN_TIMESTAMP {
            return Err(FlightRadarError::parameter("Invalid Timestamp: ", stamp.as_str()));
        }
        let query = match other_queries {
            Some(query) => query,
            None => {
                return Err(Self::missing_parameters());
            },
        };
        if !Self::check_historic_parameters(query) {
            return Err(Self::missing_parameters());
        }
        let params_back = match Self::build_query_params(query) {
            Ok(text) => strip_lead(text.as_str()),
            Err(err) => {
                return Err(err);
            },
        };
        let mut url = self.base_url.clone();
        url.append(path);
        url.append("?timestamp=");
        url.append(stamp.as_str());
        url.push('&');
        url.append(params_back.as_str());
        assert(url@ =~= self.base() + path@ + "?timestamp="@ + decimal_text(timestamp as nat)
            + seq!['&'] + params_back@);
        Ok(self.request(url, shape))
    }

    fn missing_parameters() -> (err: FlightRadarError)
        ensures
            err@ == ErrorModel::Parameter(missing_parameters_text()),
    {
        FlightRadarError::Parameter("Missing One Of Required Parameters".to_owned())
    }

    /// The request for live positions with all fields.
    pub fn get_live_flight(&self, other_queries: Option<&FullLiveFlightQuery>) -> (result: Result<
        ApiRequest,
        FlightRadarError,
    >)
        ensures
            self.answers(
                result,
                live_url(self.base(), "live/flight-positions/full"@, other_queries),
                ResponseShape::FullFlightPositions,
            ),
    {
        self.live_request(
            "live/flight-positions/full",
            other_queries,
            ResponseShape::FullFlightPositions,
        )
    }

    /// The request for live positions with the reduced set of fields.
    pub fn get_live_flight_light(&self, other_queries: Option<&FullLiveFlightQuery>) -> (result:
        Result<ApiRequest, FlightRadarError>)
        ensures
            self.answers(
                result,
                live_url(self.base(), "live/flight-positions/light"@, other_queries),
                ResponseShape::LightFlightPositions,
            ),
    {
        self.live_request(
            "live/flight-positions/light",
            other_queries,
            ResponseShape::LightFlightPositions,
        )
    }

    /// The request for the positions recorded at `timestamp`, with all fields.
    pub fn get_historic_flight(
        &self,
        timestamp: &u64,
        other_queries: Option<&FullLiveFlightQuery>,
    ) -> (result: Result<ApiRequest, FlightRadarError>)
        ensures
            self.answers(
                result,
                historic_url(
                    self.base(),
                    "historic/flight-positions/full"@,
                    *timestamp,
                    other_queries,
                ),
                ResponseShape::FullFlightPositions,
            ),
    {
        self.historic_request(
            "historic/flight-positions/full",
            *timestamp,
            other_queries,
            ResponseShape::FullFlightPositions,
        )
    }

    /// The request for the positions recorded at `timestamp`, with the
    /// reduced set of fields.
    pub fn get_historic_flight_light(
        &self,
        timestamp: &u64,
        other_queries: Option<&FullLiveFlightQuery>,
    ) -> (result: Result<ApiRequest, FlightRadarError>)
        ensures
            self.answers(
                result,
                historic_url(
                    self.base(),
                    "historic/flight-positions/light"@,
                    *timestamp,
                    other_queries,
                ),
                ResponseShape::LightFlightPositions,
            ),
    {
        self.historic_request(
            "historic/flight-positions/light",
            *timestamp,
            other_queries,
            ResponseShape::LightFlightPositions,
        )
    }

    /// The request for the track history of the flight with the given
    /// hexadecimal identifier.
    pub fn get_flight_tracks_by_id(&self, flight_id: &str) -> (result: Result<
        ApiRequest,
        FlightRadarError,
    >)
        ensures
            self.answers(
                result,
                flight_tracks_url(self.base(), flight_id@),
                ResponseShape::FlightTracks,
            ),
    {
        if !parses_as_hex(flight_id) {
            return Err(FlightRadarError::parameter("Flight ID Not Hexadecimal: ", flight_id));
        }
        let mut url = self.base_url.clone();
        url.append("flight-tracks?flight_id=");
        url.append(flight_id);
        Ok(self.request(url, ResponseShape::FlightTracks))
    }

    /// The request for the usage of the API over a period.
    pub fn get_api_usage(&self, period: &str) -> (result: Result<ApiRequest, FlightRadarError>)
        ensures
            self.answers(result, api_usage_url(self.base(), period@), ResponseShape::ApiUsage),
    {
        if !is_usage_period_str(period) {
            let mut msg = String::from_str("Period: ");
            msg.append(period);
            msg.append(". Should be: 24h|7d|30d|1y");
            return Err(FlightRadarError::Parameter(msg));
        }
        let mut url = self.base_url.clone();
        url.append("usage?period=");
        url.append(period);
        Ok(self.request(url, ResponseShape::ApiUsage))
    }
}

fn strip_lead(text: &str) -> (rest: String)
    ensures
        rest@ == without_lead(text@),
{
    let len = text.unicode_len();
    if len == 0 {
        String::new()
    } else {
        text.substring_char(1, len).to_owned()
    }
}

} // verus!
