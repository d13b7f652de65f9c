//! The records that the API answers with. They carry data and no behaviour.
//! A latitude or longitude is kept as the decimal text of its number of
//! degrees.

use vstd::prelude::*;

verus! {

/// One point of a flight's track.
#[derive(Debug)]
pub struct Track {
    pub timestamp: String,
    pub lat: String,
    pub lon: String,
    pub alt: u32,
    pub gspeed: u32,
    pub vspeed: u32,
    pub track: u32,
    pub squawk: String,
    pub callsign: String,
    pub source: String,
}

/// A flight and the points of its track.
#[derive(Debug)]
pub struct Flight {
    pub id: String,
    pub tracks: Vec<Track>,
}

/// The answer of the usage endpoint.
#[derive(Debug)]
pub struct ApiUsageResponse {
    pub data: Vec<ApiEndpointUsage>,
}

/// The usage of one endpoint.
#[derive(Debug)]
pub struct ApiEndpointUsage {
    pub endpoint: String,
    pub metadata: String,
    pub request_count: u32,
    pub results: u32,
    pub credits: u32,
}

/// An airline.
#[derive(Debug)]
pub struct Airline {
    pub name: String,
    pub iata: Option<String>,
    pub icao: String,
}

/// The full record of an airport.
#[derive(Debug)]
pub struct Airport {
    pub name: String,
    pub iata: String,
    pub icao: String,
    pub lon: String,
    pub lat: String,
    pub elevation: i32,
    pub country: Country,
    pub city: String,
    pub state: Option<String>,
    pub timezone: Timezone,
}

/// The country of an airport.
#[derive(Debug)]
pub struct Country {
    pub code: String,
    pub name: String,
}

/// The time zone of an airport.
#[derive(Debug)]
pub struct Timezone {
    pub name: String,
    pub offset: i32,
}

/// The short record of an airport.
#[derive(Debug)]
pub struct AirportLite {
    pub name: String,
    pub iata: String,
    pub icao: String,
}

/// The answer of the flight-positions endpoints that send all fields.
#[derive(Debug)]
pub struct FullLiveFlightResponse {
    pub data: Vec<FullLiveFlightData>,
}

/// One flight position with all fields.
#[derive(Debug)]
pub struct FullLiveFlightData {
    pub fr24_id: String,
    pub flight: String,
    pub callsign: String,
    pub lat: String,
    pub lon: String,
    pub track: u32,
    pub alt: u32,
    pub gspeed: u32,
    /// Negative while the aircraft descends.
    pub vspeed: i32,
    pub squawk: String,
    pub timestamp: String,
    pub source: String,
    pub hex: String,
    pub type_field: String,
    pub reg: String,
    pub painted_as: String,
    pub operating_as: String,
    pub orig_iata: String,
    pub orig_icao: String,
    pub dest_iata: String,
    pub dest_icao: String,
    pub eta: String,
}

/// The answer of the flight-positions endpoints that send the reduced set
/// of fields.
#[derive(Debug)]
pub struct LightLiveFlightResponse {
    pub data: Vec<LightLiveFlightData>,
}

/// One flight position with the reduced set of fields.
#[derive(Debug)]
pub struct LightLiveFlightData {
    pub fr24_id: String,
    pub hex: String,
    pub callsign: String,
    pub lat: String,
    pub lon: String,
    pub track: u32,
    pub alt: u32,
    pub gspeed: u32,
    /// Negative while the aircraft descends.
    pub vspeed: i32,
    pub squawk: String,
    pub timestamp: String,
    pub source: String,
}

impl Default for Track {
    fn default() -> (track: Track)
        ensures
            track.timestamp@.len() == 0,
            track.lat@ == "0"@,
            track.lon@ == "0"@,
            track.alt == 0,
            track.gspeed == 0,
            track.vspeed == 0,
            track.track == 0,
            track.squawk@.len() == 0,
            track.callsign@.len() == 0,
            track.source@.len() == 0,
    {
        Track {
            timestamp: String::new(),
            lat: "0".to_owned(),
            lon: "0".to_owned(),
            alt: 0,
            gspeed: 0,
            vspeed: 0,
            track: 0,
            squawk: String::new(),
            callsign: String::new(),
            source: String::new(),
        }
    }
}

impl Default for Flight {
    fn default() -> (flight: Flight)
        ensures
            flight.id@.len() == 0,
            flight.tracks@.len() == 0,
    {
        Flight { id: String::new(), tracks: Vec::new() }
    }
}

impl Default for ApiUsageResponse {
    fn default() -> (usage: ApiUsageResponse)
        ensures
            usage.data@.len() == 0,
    {
        ApiUsageResponse { data: Vec::new() }
    }
}

impl Default for ApiEndpointUsage {
    fn default() -> (usage: ApiEndpointUsage)
        ensures
            usage.endpoint@.len() == 0,
            usage.metadata@.len() == 0,
            usage.request_count == 0,
            usage.results == 0,
            usage.credits == 0,
    {
        ApiEndpointUsage {
            endpoint: String::new(),
            metadata: String::new(),
            request_count: 0,
            results: 0,
            credits: 0,
        }
    }
}

impl Default for Airline {
    fn default() -> (airline: Airline)
        ensures
            airline.name@.len() == 0,
            airline.iata is None,
            airline.icao@.len() == 0,
    {
        Airline { name: String::new(), iata: None, icao: String::new() }
    }
}

impl Default for Airport {
    fn default() -> (airport: Airport)
        ensures
            airport.name@.len() == 0,
            airport.iata@.len() == 0,
            airport.icao@.len() == 0,
            airport.lon@ == "0"@,
            airport.lat@ == "0"@,
            airport.elevation == 0,
            airport.country.code@.len() == 0,
            airport.country.name@.len() == 0,
            airport.city@.len() == 0,
            airport.state is None,
            airport.timezone.name@.len() == 0,
            airport.timezone.offset == 0,
    {
        Airport {
            name: String::new(),
            iata: String::new(),
            icao: String::new(),
            lon: "0".to_owned(),
            lat: "0".to_owned(),
            elevation: 0,
            country: Country::default(),
            city: String::new(),
            state: None,
            timezone: Timezone::default(),
        }
    }
}

impl Default for FullLiveFlightResponse {
    fn default() -> (response: FullLiveFlightResponse)
        ensures
            response.data@.len() == 0,
    {
        FullLiveFlightResponse { data: Vec::new() }
    }
}

impl Default for LightLiveFlightResponse {
    fn default() -> (response: LightLiveFlightResponse)
        ensures
            response.data@.len() == 0,
    {
        LightLiveFlightResponse { data: Vec::new() }
    }
}

impl Default for FullLiveFlightData {
    fn default() -> (position: FullLiveFlightData)
        ensures
            position.fr24_id@.len() == 0,
            position.flight@.len() == 0,
            position.callsign@.len() == 0,
            position.lat@ == "0"@,
            position.lon@ == "0"@,
            position.track == 0,
            position.alt == 0,
            position.gspeed == 0,
            position.vspeed == 0,
            position.squawk@.len() == 0,
            position.timestamp@.len() == 0,
            position.source@.len() == 0,
            position.hex@.len() == 0,
            position.type_field@.len() == 0,
            position.reg@.len() == 0,
            position.painted_as@.len() == 0,
            position.operating_as@.len() == 0,
            position.orig_iata@.len() == 0,
            position.orig_icao@.len() == 0,
            position.dest_iata@.len() == 0,
            position.dest_icao@.len() == 0,
            position.eta@.len() == 0,
    {
        FullLiveFlightData {
            fr24_id: String::new(),
            flight: String::new(),
            callsign: String::new(),
            lat: "0".to_owned(),
            lon: "0".to_owned(),
            track: 0,
            alt: 0,
            gspeed: 0,
            vspeed: 0,
            squawk: String::new(),
            timestamp: String::new(),
            source: String::new(),
            hex: String::new(),
            type_field: String::new(),
            reg: String::new(),
            painted_as: String::new(),
            operating_as: String::new(),
            orig_iata: String::new(),
            orig_icao: String::new(),
            dest_iata: String::new(),
            dest_icao: String::new(),
            eta: String::new(),
        }
    }
}

impl Default for LightLiveFlightData {
    fn default() -> (position: LightLiveFlightData)
        ensures
            position.fr24_id@.len() == 0,
            position.hex@.len() == 0,
            position.callsign@.len() == 0,
            position.lat@ == "0"@,
            position.lon@ == "0"@,
            position.track == 0,
            position.alt == 0,
            position.gspeed == 0,
            position.vspeed == 0,
            position.squawk@.len() == 0,
            position.timestamp@.len() == 0,
            position.source@.len() == 0,
    {
        LightLiveFlightData {
            fr24_id: String::new(),
            hex: String::new(),
            callsign: String::new(),
            lat: "0".to_owned(),
            lon: "0".to_owned(),
            track: 0,
            alt: 0,
            gspeed: 0,
            vspeed: 0,
            squawk: String::new(),
            timestamp: String::new(),
            source: String::new(),
        }
    }
}

impl Default for Country {
    fn default() -> (country: Country)
        ensures
            country.code@.len() == 0,
            country.name@.len() == 0,
    {
        Country { code: String::new(), name: String::new() }
    }
}

impl Default for Timezone {
    fn default() -> (zone: Timezone)
        ensures
            zone.name@.len() == 0,
            zone.offset == 0,
    {
        Timezone { name: String::new(), offset: 0 }
    }
}

impl Default for AirportLite {
    fn default() -> (airport: AirportLite)
        ensures
            airport.name@.len() == 0,
            airport.iata@.len() == 0,
            airport.icao@.len() == 0,
    {
        AirportLite { name: String::new(), iata: String::new(), icao: String::new() }
    }
}

} // verus!
