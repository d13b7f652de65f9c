//! The query record: one optional slot per filterable dimension.

use vstd::prelude::*;

verus! {

/// A geographic bounding box. Each edge is the decimal text of a number of
/// degrees, as it is sent. The edges are not compared with one another.
#[derive(Debug)]
pub struct Bounds {
    pub north: String,
    pub south: String,
    pub west: String,
    pub east: String,
}

/// A numeric range with a minimum and a maximum.
#[derive(Clone, Copy, Debug)]
pub struct ApiRange {
    pub min: u32,
    pub max: u32,
}

/// Either a single number or a range.
#[derive(Clone, Copy, Debug)]
pub enum ApiRangeEnum {
    U32(u32),
    ApiRange(ApiRange),
}

/// A query for flight positions. An absent slot means that the dimension is
/// not filtered on.
#[derive(Debug)]
pub struct FullLiveFlightQuery {
    pub bounds: Option<Bounds>,
    pub flights: Option<Vec<String>>,
    pub callsigns: Option<Vec<String>>,
    pub registrations: Option<Vec<String>>,
    pub painted_as: Option<Vec<String>>,
    pub operating_as: Option<Vec<String>>,
    pub airports: Option<Vec<String>>,
    pub routes: Option<Vec<String>>,
    pub aircraft: Option<Vec<String>>,
    pub altitude_ranges: Option<Vec<ApiRange>>,
    pub squawks: Option<Vec<u16>>,
    pub categories: Option<Vec<char>>,
    pub data_sources: Option<Vec<String>>,
    pub airspaces: Option<Vec<String>>,
    pub gspeed: Option<ApiRangeEnum>,
    pub limit: Option<u32>,
}

impl Default for ApiRange {
    fn default() -> (range: ApiRange)
        ensures
            range.min == 0,
            range.max == 0,
    {
        ApiRange { min: 0, max: 0 }
    }
}

impl Default for Bounds {
    fn default() -> (bounds: Bounds)
        ensures
            bounds.north@ == "0"@,
            bounds.south@ == "0"@,
            bounds.west@ == "0"@,
            bounds.east@ == "0"@,
    {
        Bounds {
            north: "0".to_owned(),
            south: "0".to_owned(),
            west: "0".to_owned(),
            east: "0".to_owned(),
        }
    }
}

impl Default for FullLiveFlightQuery {
    fn default() -> (query: FullLiveFlightQuery)
        ensures
            query.is_unpopulated(),
    {
        FullLiveFlightQuery {
            bounds: None,
            flights: None,
            callsigns: None,
            registrations: None,
            painted_as: None,
            operating_as: None,
            airports: None,
            routes: None,
            aircraft: None,
            altitude_ranges: None,
            squawks: None,
            categories: None,
            data_sources: None,
            airspaces: None,
            gspeed: None,
            limit: None,
        }
    }
}

impl FullLiveFlightQuery {
    /// No slot of the query is populated.
    pub open spec fn is_unpopulated(&self) -> bool {
        &&& self.bounds is None
        &&& self.flights is None
        &&& self.callsigns is None
        &&& self.registrations is None
        &&& self.painted_as is None
        &&& self.operating_as is None
        &&& self.airports is None
        &&& self.routes is None
        &&& self.aircraft is None
        &&& self.altitude_ranges is None
        &&& self.squawks is None
        &&& self.categories is None
        &&& self.data_sources is None
        &&& self.airspaces is None
        &&& self.gspeed is None
        &&& self.limit is None
    }

    /// The historic endpoints accept the query: one of the dimensions that
    /// they filter on is populated. The result limit does not count.
    pub open spec fn is_historic_queryable(&self) -> bool {
        ||| self.aircraft is Some
        ||| self.airports is Some
        ||| self.altitude_ranges is Some
        ||| self.bounds is Some
        ||| self.callsigns is Some
        ||| self.categories is Some
        ||| self.data_sources is Some
        ||| self.flights is Some
        ||| self.gspeed is Some
        ||| self.operating_as is Some
        ||| self.painted_as is Some
        ||| self.registrations is Some
        ||| self.routes is Some
        ||| self.squawks is Some
    }

    /// The live endpoints accept the query: they filter on every dimension
    /// of the historic endpoints and on airspaces as well.
    pub open spec fn is_live_queryable(&self) -> bool {
        self.is_historic_queryable() || self.airspaces is Some
    }
}

/// Whatever is populated for a historic query is populated for a live one.
pub proof fn historic_queryable_implies_live(query: FullLiveFlightQuery)
    requires
        query.is_historic_queryable(),
    ensures
        query.is_live_queryable(),
{
}

/// A query without any populated slot is accepted by neither endpoint family.
pub proof fn unpopulated_query_is_not_queryable(query: FullLiveFlightQuery)
    requires
        query.is_unpopulated(),
    ensures
        !query.is_live_queryable(),
        !query.is_historic_queryable(),
{
}

/// Airspaces alone satisfy the live endpoints and not the historic ones.
pub proof fn airspaces_alone_are_live_only(query: FullLiveFlightQuery)
    requires
        query.airspaces is Some,
        (FullLiveFlightQuery { airspaces: None, ..query }).is_unpopulated(),
    ensures
        query.is_live_queryable(),
        !query.is_historic_queryable(),
{
}

} // verus!
