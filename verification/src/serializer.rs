//! From a query to the text of its query string, dimension by dimension.

use vstd::prelude::*;
use vstd::string::*;
use crate::error::{ErrorModel, FlightRadarError};
use crate::query::FullLiveFlightQuery;
use crate::validators::{
    aircraft_verdict, airport_verdict, airspace_verdict, altitude_range_verdict, bounds_verdict,
    callsign_verdict, category_verdict, data_source_verdict, flight_verdict, gspeed_verdict,
    limit_verdict, operating_as_verdict, painted_as_verdict, registration_verdict,
    reports_optional, route_verdict, squawk_verdict, validate_aircraft, validate_airport,
    validate_airspace, validate_altitude_range, validate_bounds, validate_callsign,
    validate_category, validate_data_source, validate_flight, validate_gspeed, validate_limit,
    validate_operating_as, validate_painted_as, validate_registration, validate_route,
    validate_squawk, Verdict,
};

verus! {

/// The dimensions of a query, named in the order in which they are written.
#[derive(Clone, Copy, Debug)]
pub enum Dimension {
    Bounds,
    Flights,
    Callsigns,
    Registrations,
    PaintedAs,
    OperatingAs,
    Airports,
    Routes,
    Aircraft,
    AltitudeRanges,
    Squawks,
    Categories,
    DataSources,
    Airspaces,
    Gspeed,
    Limit,
}

/// The number of dimensions.
pub const DIMENSIONS: usize = 16;

/// The fixed order of the dimensions in a query string.
pub open spec fn dimension_order() -> Seq<Dimension> {
    seq![
        Dimension::Bounds,
        Dimension::Flights,
        Dimension::Callsigns,
        Dimension::Registrations,
        Dimension::PaintedAs,
        Dimension::OperatingAs,
        Dimension::Airports,
        Dimension::Routes,
        Dimension::Aircraft,
        Dimension::AltitudeRanges,
        Dimension::Squawks,
        Dimension::Categories,
        Dimension::DataSources,
        Dimension::Airspaces,
        Dimension::Gspeed,
        Dimension::Limit,
    ]
}

impl Dimension {
    /// The text that opens the dimension's segment: its delimiter, its name
    /// and `=`.
    pub open spec fn lead(self) -> Seq<char> {
        match self {
            Dimension::Bounds => "?bounds="@,
            Dimension::Flights => "&flights="@,
            Dimension::Callsigns => "&callsigns="@,
            Dimension::Registrations => "&registrations="@,
            Dimension::PaintedAs => "&painted_as="@,
            Dimension::OperatingAs => "&operating_as="@,
            Dimension::Airports => "&airports="@,
            Dimension::Routes => "&routes="@,
            Dimension::Aircraft => "&aircraft="@,
            Dimension::AltitudeRanges => "&altitude_ranges="@,
            Dimension::Squawks => "&squawks="@,
            Dimension::Categories => "&categories="@,
            Dimension::DataSources => "&data_sources="@,
            Dimension::Airspaces => "&airspaces="@,
            Dimension::Gspeed => "&gspeed="@,
            Dimension::Limit => "&limit="@,
        }
    }

    /// The opening text of the dimension's segment.
    pub fn lead_str(self) -> (lead: &'static str)
        ensures
            lead@ == self.lead(),
    {
        match self {
            Dimension::Bounds => "?bounds=",
            Dimension::Flights => "&flights=",
            Dimension::Callsigns => "&callsigns=",
            Dimension::Registrations => "&registrations=",
            Dimension::PaintedAs => "&painted_as=",
            Dimension::OperatingAs => "&operating_as=",
            Dimension::Airports => "&airports=",
            Dimension::Routes => "&routes=",
            Dimension::Aircraft => "&aircraft=",
            Dimension::AltitudeRanges => "&altitude_ranges=",
            Dimension::Squawks => "&squawks=",
            Dimension::Categories => "&categories=",
            Dimension::DataSources => "&data_sources=",
            Dimension::Airspaces => "&airspaces=",
            Dimension::Gspeed => "&gspeed=",
            Dimension::Limit => "&limit=",
        }
    }

    /// The dimension at a position of the fixed order.
    pub(crate) fn at(position: usize) -> (dim: Dimension)
        requires
            position < DIMENSIONS,
        ensures
            dim == dimension_order()[position as int],
    {
        if position == 0 {
            Dimension::Bounds
        } else if position == 1 {
            Dimension::Flights
        } else if position == 2 {
            Dimension::Callsigns
        } else if position == 3 {
            Dimension::Registrations
        } else if position == 4 {
            Dimension::PaintedAs
        } else if position == 5 {
            Dimension::OperatingAs
        } else if position == 6 {
            Dimension::Airports
        } else if position == 7 {
            Dimension::Routes
        } else if position == 8 {
            Dimension::Aircraft
        } else if position == 9 {
            Dimension::AltitudeRanges
        } else if position == 10 {
            Dimension::Squawks
        } else if position == 11 {
            Dimension::Categories
        } else if position == 12 {
            Dimension::DataSources
        } else if position == 13 {
            Dimension::Airspaces
        } else if position == 14 {
            Dimension::Gspeed
        } else {
            Dimension::Limit
        }
    }
}

/// The number of items in a slot that holds a collection; none when absent.
pub open spec fn slot_len<T>(slot: Option<Vec<T>>) -> nat {
    match slot {
        Some(items) => items@.len(),
        None => 0,
    }
}

/// The number of candidates that a query holds for a dimension.
pub open spec fn item_count(query: FullLiveFlightQuery, dim: Dimension) -> nat {
    match dim {
        Dimension::Bounds => if query.bounds is Some {
            1
        } else {
            0
        },
        Dimension::Flights => slot_len(query.flights),
        Dimension::Callsigns => slot_len(query.callsigns),
        Dimension::Registrations => slot_len(query.registrations),
        Dimension::PaintedAs => slot_len(query.painted_as),
        Dimension::OperatingAs => slot_len(query.operating_as),
        Dimension::Airports => slot_len(query.airports),
        Dimension::Routes => slot_len(query.routes),
        Dimension::Aircraft => slot_len(query.aircraft),
        Dimension::AltitudeRanges => slot_len(query.altitude_ranges),
        Dimension::Squawks => slot_len(query.squawks),
        Dimension::Categories => slot_len(query.categories),
        Dimension::DataSources => slot_len(query.data_sources),
        Dimension::Airspaces => slot_len(query.airspaces),
        Dimension::Gspeed => if query.gspeed is Some {
            1
        } else {
            0
        },
        Dimension::Limit => if query.limit is Some {
            1
        } else {
            0
        },
    }
}

/// The verdict on the candidate at `index` of a dimension, by that
/// dimension's rule.
pub open spec fn item_verdict(query: FullLiveFlightQuery, dim: Dimension, index: int) -> Verdict {
    match dim {
        Dimension::Bounds => bounds_verdict(query.bounds->0),
        Dimension::Flights => flight_verdict(query.flights->0@[index]@),
        Dimension::Callsigns => callsign_verdict(query.callsigns->0@[index]@),
        Dimension::Registrations => registration_verdict(query.registrations->0@[index]@),
        Dimension::PaintedAs => painted_as_verdict(query.painted_as->0@[index]@),
        Dimension::OperatingAs => operating_as_verdict(query.operating_as->0@[index]@),
        Dimension::Airports => airport_verdict(query.airports->0@[index]@),
        Dimension::Routes => route_verdict(query.routes->0@[index]@),
        Dimension::Aircraft => aircraft_verdict(query.aircraft->0@[index]@),
        Dimension::AltitudeRanges => altitude_range_verdict(query.altitude_ranges->0@[index]),
        Dimension::Squawks => squawk_verdict(query.squawks->0@[index]),
        Dimension::Categories => category_verdict(query.categories->0@[index]),
        Dimension::DataSources => data_source_verdict(query.data_sources->0@[index]@),
        Dimension::Airspaces => airspace_verdict(query.airspaces->0@[index]@),
        Dimension::Gspeed => gspeed_verdict(query.gspeed->0),
        Dimension::Limit => limit_verdict(query.limit->0),
    }
}

/// The verdicts on all candidates of a dimension, in the order of the items.
pub open spec fn verdicts(query: FullLiveFlightQuery, dim: Dimension) -> Seq<Verdict> {
    Seq::new(item_count(query, dim), |index: int| item_verdict(query, dim, index))
}

/// The text of the first rejection among the verdicts, if there is one.
pub open spec fn first_rejection(verdicts: Seq<Verdict>) -> Option<Seq<char>>
    decreases verdicts.len(),
{
    if verdicts.len() == 0 {
        None
    } else {
        match first_rejection(verdicts.drop_last()) {
            Some(msg) => Some(msg),
            None => match verdicts.last() {
                Verdict::Rejected(msg) => Some(msg),
                _ => None,
            },
        }
    }
}

/// The accepted texts among the verdicts, in order.
pub open spec fn accepted_texts(verdicts: Seq<Verdict>) -> Seq<Seq<char>>
    decreases verdicts.len(),
{
    if verdicts.len() == 0 {
        Seq::empty()
    } else {
        match verdicts.last() {
            Verdict::Accepted(text) => accepted_texts(verdicts.drop_last()).push(text),
            _ => accepted_texts(verdicts.drop_last()),
        }
    }
}

/// The texts separated by commas, with no comma before the first or after
/// the last.
pub open spec fn comma_joined(texts: Seq<Seq<char>>) -> Seq<char>
    decreases texts.len(),
{
    if texts.len() == 0 {
        Seq::empty()
    } else if texts.len() == 1 {
        texts[0]
    } else {
        comma_joined(texts.drop_last()) + seq![','] + texts.last()
    }
}

/// A segment: nothing at all when there is no text to send, else the lead
/// and the texts joined by commas.
pub open spec fn segment_text(lead: Seq<char>, texts: Seq<Seq<char>>) -> Seq<char> {
    if texts.len() == 0 {
        Seq::empty()
    } else {
        lead + comma_joined(texts)
    }
}

/// The outcome of one dimension: the first rejection if any candidate is
/// rejected, else the segment of the accepted candidates.
pub open spec fn dimension_outcome(query: FullLiveFlightQuery, dim: Dimension) -> Result<
    Seq<char>,
    Seq<char>,
> {
    match first_rejection(verdicts(query, dim)) {
        Some(msg) => Err(msg),
        None => Ok(segment_text(dim.lead(), accepted_texts(verdicts(query, dim)))),
    }
}

/// The outcome of the first `count` dimensions of the fixed order: the
/// rejection of the earliest dimension that has one, else the segments one
/// after the other.
pub open spec fn serialized_prefix(query: FullLiveFlightQuery, count: nat) -> Result<
    Seq<char>,
    Seq<char>,
>
    decreases count,
{
    if count == 0 {
        Ok(Seq::empty())
    } else {
        match serialized_prefix(query, (count - 1) as nat) {
            Err(msg) => Err(msg),
            Ok(text) => match dimension_outcome(query, dimension_order()[count - 1]) {
                Err(msg) => Err(msg),
                Ok(seg) => Ok(text + seg),
            },
        }
    }
}

/// The outcome of serializing a query: `Ok` with the query string, or `Err`
/// with the text of the first rejection.
pub open spec fn serialized(query: FullLiveFlightQuery) -> Result<Seq<char>, Seq<char>> {
    serialized_prefix(query, DIMENSIONS as nat)
}

/// A rejection among the first verdicts is the rejection of the whole.
pub proof fn lemma_rejection_persists(verdicts: Seq<Verdict>, count: int)
    requires
        0 <= count <= verdicts.len(),
        first_rejection(verdicts.take(count)) is Some,
    ensures
        first_rejection(verdicts) == first_rejection(verdicts.take(count)),
    decreases verdicts.len() - count,
{
    if count == verdicts.len() {
        assert(verdicts.take(count) =~= verdicts);
    } else {
        assert(verdicts.take(count + 1).drop_last() =~= verdicts.take(count));
        lemma_rejection_persists(verdicts, count + 1);
    }
}

/// A rejection among the first dimensions is the rejection of the query.
pub proof fn lemma_serialized_rejection_persists(query: FullLiveFlightQuery, count: nat)
    requires
        count <= DIMENSIONS,
        serialized_prefix(query, count) is Err,
    ensures
        serialized(query) == serialized_prefix(query, count),
    decreases DIMENSIONS - count,
{
    if count < DIMENSIONS {
        lemma_serialized_rejection_persists(query, count + 1);
    }
}

/// `result` is what serializing `query` gives: the query string, or a
/// parameter error with the first rejection.
pub open spec fn serializes(
    result: Result<String, FlightRadarError>,
    query: FullLiveFlightQuery,
) -> bool {
    match result {
        Ok(text) => serialized(query) == Ok::<Seq<char>, Seq<char>>(text@),
        Err(err) => serialized(query) matches Err(msg) && err@ == ErrorModel::Parameter(msg),
    }
}

/// Serializing the same query twice gives the same outcome both times: the
/// same text, character for character, or the same rejection.
pub proof fn serialization_is_repeatable(
    query: FullLiveFlightQuery,
    first: Result<String, FlightRadarError>,
    second: Result<String, FlightRadarError>,
)
    requires
        serializes(first, query),
        serializes(second, query),
    ensures
        first is Ok <==> second is Ok,
        first is Ok ==> first->Ok_0@ == second->Ok_0@,
        first is Err ==> first->Err_0@ == second->Err_0@,
{
}

/// Verdicts without a first rejection hold no rejection at all.
pub proof fn lemma_no_rejection_anywhere(verdicts: Seq<Verdict>, index: int)
    requires
        first_rejection(verdicts) is None,
        0 <= index < verdicts.len(),
    ensures
        !(verdicts[index] is Rejected),
    decreases verdicts.len(),
{
    if index < verdicts.len() - 1 {
        lemma_no_rejection_anywhere(verdicts.drop_last(), index);
    }
}

/// The place of a dimension in the fixed order.
pub open spec fn position_of(dim: Dimension) -> nat {
    match dim {
        Dimension::Bounds => 0,
        Dimension::Flights => 1,
        Dimension::Callsigns => 2,
        Dimension::Registrations => 3,
        Dimension::PaintedAs => 4,
        Dimension::OperatingAs => 5,
        Dimension::Airports => 6,
        Dimension::Routes => 7,
        Dimension::Aircraft => 8,
        Dimension::AltitudeRanges => 9,
        Dimension::Squawks => 10,
        Dimension::Categories => 11,
        Dimension::DataSources => 12,
        Dimension::Airspaces => 13,
        Dimension::Gspeed => 14,
        Dimension::Limit => 15,
    }
}

/// A query is serialized only as a whole: where serialization succeeds, no
/// candidate of any dimension is rejected by its rule.
pub proof fn serialized_query_holds_no_rejection(
    query: FullLiveFlightQuery,
    dim: Dimension,
    index: int,
)
    requires
        serialized(query) is Ok,
        0 <= index < item_count(query, dim),
    ensures
        !(item_verdict(query, dim, index) is Rejected),
{
    let place = position_of(dim);
    assert(dimension_order()[place as int] == dim);
    if serialized_prefix(query, place + 1) is Err {
        lemma_serialized_rejection_persists(query, place + 1);
    }
    assert(dimension_outcome(query, dim) is Ok);
    lemma_no_rejection_anywhere(verdicts(query, dim), index);
}

/// A rejected candidate fails the whole query: serialization gives a
/// rejection and no text.
pub proof fn rejected_candidate_fails_query(query: FullLiveFlightQuery, dim: Dimension, index: int)
    requires
        0 <= index < item_count(query, dim),
        item_verdict(query, dim, index) is Rejected,
    ensures
        serialized(query) is Err,
{
    if serialized(query) is Ok {
        serialized_query_holds_no_rejection(query, dim, index);
    }
}

/// A dimension without an accepted candidate is not written at all: an
/// absent slot, an empty collection, or one whose candidates were all dropped
/// leaves no trace in the query string, not even its name.
pub proof fn dimension_without_accepted_candidate_is_not_written(
    query: FullLiveFlightQuery,
    dim: Dimension,
)
    requires
        forall|index: int|
            0 <= index < item_count(query, dim) ==> !(#[trigger] item_verdict(query, dim, index)
                is Accepted),
        dimension_outcome(query, dim) is Ok,
    ensures
        dimension_outcome(query, dim) == Ok::<Seq<char>, Seq<char>>(Seq::empty()),
{
    lemma_nothing_accepted(verdicts(query, dim));
}

proof fn lemma_nothing_accepted(verdicts: Seq<Verdict>)
    requires
        forall|index: int| 0 <= index < verdicts.len() ==> !(#[trigger] verdicts[index] is Accepted),
    ensures
        accepted_texts(verdicts).len() == 0,
    decreases verdicts.len(),
{
    if verdicts.len() > 0 {
        lemma_nothing_accepted(verdicts.drop_last());
    }
}

/// Every dimension's lead opens with the delimiter `?` or `&`.
pub proof fn lemma_lead_opens_with_delimiter(dim: Dimension)
    ensures
        dim.lead().len() > 0,
        dim.lead()[0] == '?' || dim.lead()[0] == '&',
{
    reveal_strlit("?bounds=");
    reveal_strlit("&flights=");
    reveal_strlit("&callsigns=");
    reveal_strlit("&registrations=");
    reveal_strlit("&painted_as=");
    reveal_strlit("&operating_as=");
    reveal_strlit("&airports=");
    reveal_strlit("&routes=");
    reveal_strlit("&aircraft=");
    reveal_strlit("&altitude_ranges=");
    reveal_strlit("&squawks=");
    reveal_strlit("&categories=");
    reveal_strlit("&data_sources=");
    reveal_strlit("&airspaces=");
    reveal_strlit("&gspeed=");
    reveal_strlit("&limit=");
}

proof fn lemma_prefix_opens_with_delimiter(query: FullLiveFlightQuery, count: nat)
    requires
        count <= DIMENSIONS,
        serialized_prefix(query, count) is Ok,
    ensures
        ({
            let text = serialized_prefix(query, count)->Ok_0;
            text.len() > 0 ==> text[0] == '?' || text[0] == '&'
        }),
    decreases count,
{
    if count > 0 {
        lemma_prefix_opens_with_delimiter(query, (count - 1) as nat);
        lemma_lead_opens_with_delimiter(dimension_order()[count - 1]);
    }
}

/// A query string is empty or opens with the delimiter `?` or `&`.
pub proof fn query_string_opens_with_delimiter(query: FullLiveFlightQuery)
    requires
        serialized(query) is Ok,
        serialized(query)->Ok_0.len() > 0,
    ensures
        serialized(query)->Ok_0[0] == '?' || serialized(query)->Ok_0[0] == '&',
{
    lemma_prefix_opens_with_delimiter(query, DIMENSIONS as nat);
}

fn count_items(params: &FullLiveFlightQuery, dim: Dimension) -> (count: usize)
    ensures
        count == item_count(*params, dim),
{
    match dim {
        Dimension::Bounds => if params.bounds.is_some() {
            1
        } else {
            0
        },
        Dimension::Flights => slot_length(&params.flights),
        Dimension::Callsigns => slot_length(&params.callsigns),
        Dimension::Registrations => slot_length(&params.registrations),
        Dimension::PaintedAs => slot_length(&params.painted_as),
        Dimension::OperatingAs => slot_length(&params.operating_as),
        Dimension::Airports => slot_length(&params.airports),
        Dimension::Routes => slot_length(&params.routes),
        Dimension::Aircraft => slot_length(&params.aircraft),
        Dimension::AltitudeRanges => slot_length(&params.altitude_ranges),
        Dimension::Squawks => slot_length(&params.squawks),
        Dimension::Categories => slot_length(&params.categories),
        Dimension::DataSources => slot_length(&params.data_sources),
        Dimension::Airspaces => slot_length(&params.airspaces),
        Dimension::Gspeed => if params.gspeed.is_some() {
            1
        } else {
            0
        },
        Dimension::Limit => if params.limit.is_some() {
            1
        } else {
            0
        },
    }
}

fn slot_length<T>(slot: &Option<Vec<T>>) -> (len: usize)
    ensures
        len == slot_len(*slot),
{
    match slot {
        Some(items) => items.len(),
        None => 0,
    }
}

fn kept(result: Result<String, FlightRadarError>) -> (out: Result<
    Option<String>,
    FlightRadarError,
>)
    ensures
        out == match result {
            Ok(text) => Ok::<Option<String>, FlightRadarError>(Some(text)),
            Err(err) => Err(err),
        },
{
    match result {
        Ok(text) => Ok(Some(text)),
        Err(err) => Err(err),
    }
}

/// Applies a dimension's rule to the candidate at `index`.
fn validate_item(params: &FullLiveFlightQuery, dim: Dimension, index: usize) -> (result:
    Result<Option<String>, FlightRadarError>)
    requires
        index < item_count(*params, dim),
    ensures
        reports_optional(result, item_verdict(*params, dim, index as int)),
{
    match dim {
        Dimension::Bounds => match &params.bounds {
            Some(bounds) => kept(validate_bounds(bounds)),
            None => Ok(None),
        },
        Dimension::Flights => match &params.flights {
            Some(items) => kept(validate_flight(items[index].as_str())),
            None => Ok(None),
        },
        Dimension::Callsigns => match &params.callsigns {
            Some(items) => kept(validate_callsign(items[index].as_str())),
            None => Ok(None),
        },
        Dimension::Registrations => match &params.registrations {
            Some(items) => kept(validate_registration(items[index].as_str())),
            None => Ok(None),
        },
        Dimension::PaintedAs => match &params.painted_as {
            Some(items) => kept(validate_painted_as(items[index].as_str())),
            None => Ok(None),
        },
        Dimension::OperatingAs => match &params.operating_as {
            Some(items) => kept(validate_operating_as(items[index].as_str())),
            None => Ok(None),
        },
        Dimension::Airports => match &params.airports {
            Some(items) => kept(validate_airport(items[index].as_str())),
            None => Ok(None),
        },
        Dimension::Routes => match &params.routes {
            Some(items) => kept(validate_route(items[index].as_str())),
            None => Ok(None),
        },
        Dimension::Aircraft => match &params.aircraft {
            Some(items) => validate_aircraft(items[index].as_str()),
            None => Ok(None),
        },
        Dimension::AltitudeRanges => match &params.altitude_ranges {
            Some(items) => kept(validate_altitude_range(&items[index])),
            None => Ok(None),
        },
        Dimension::Squawks => match &params.squawks {
            Some(items) => kept(validate_squawk(items[index])),
            None => Ok(None),
        },
        Dimension::Categories => match &params.categories {
            Some(items) => kept(validate_category(items[index])),
            None => Ok(None),
        },
        Dimension::DataSources => match &params.data_sources {
            Some(items) => kept(validate_data_source(items[index].as_str())),
            None => Ok(None),
        },
        Dimension::Airspaces => match &params.airspaces {
            Some(items) => kept(validate_airspace(items[index].as_str())),
            None => Ok(None),
        },
        Dimension::Gspeed => match &params.gspeed {
            Some(gspeed) => kept(validate_gspeed(gspeed)),
            None => Ok(None),
        },
        Dimension::Limit => match &params.limit {
            Some(limit) => kept(validate_limit(*limit)),
            None => Ok(None),
        },
    }
}

/// Validates the candidates of one dimension in order and appends the
/// dimension's segment to `out`. Stops at the first rejection and then
/// leaves `out` as it was.
pub(crate) fn write_dimension(out: &mut String, params: &FullLiveFlightQuery, dim: Dimension) -> (result:
    Result<(), FlightRadarError>)
    ensures
        match result {
            Ok(()) => dimension_outcome(*params, dim) matches Ok(seg) && final(out)@ == old(out)@
                + seg,
            Err(err) => dimension_outcome(*params, dim) matches Err(msg) && err@
                == ErrorModel::Parameter(msg) && final(out)@ == old(out)@,
        },
{
    let count = count_items(params, dim);
    let ghost all = verdicts(*params, dim);
    let mut seg = String::new();
    let mut emitted = false;
    let mut index: usize = 0;
    assert(accepted_texts(all.take(0)) =~= Seq::<Seq<char>>::empty());
    while index < count
        invariant
            index <= count,
            count == all.len(),
            all == verdicts(*params, dim),
            count == item_count(*params, dim),
            first_rejection(all.take(index as int)) is None,
            seg@ == segment_text(dim.lead(), accepted_texts(all.take(index as int))),
            emitted == (accepted_texts(all.take(index as int)).len() > 0),
        decreases count - index,
    {
        let ghost seen = all.take(index as int);
        let ghost texts = accepted_texts(seen);
        proof {
            assert(all.take(index + 1).drop_last() =~= seen);
            assert(all.take(index + 1).last() == item_verdict(*params, dim, index as int));
        }
        match validate_item(params, dim, index) {
            Err(err) => {
                proof {
                    lemma_rejection_persists(all, index + 1);
                }
                return Err(err);
            },
            Ok(None) => {},
            Ok(Some(text)) => {
                if emitted {
                    seg.push(',');
                } else {
                    seg.append(dim.lead_str());
                }
                seg.append(text.as_str());
                emitted = true;
                proof {
                    assert(texts.push(text@).drop_last() =~= texts);
                    assert(seg@ =~= segment_text(dim.lead(), texts.push(text@)));
                }
            },
        }
        index = index + 1;
    }
    proof {
        assert(all.take(count as int) =~= all);
    }
    out.append(seg.as_str());
    Ok(())
}

} // verus!
