//! Helpers that read one field out of every track point of a list of flights.

use vstd::prelude::*;
use vstd::string::*;
use crate::records::{Flight, Track};

verus! {

/// The track points of all flights, flight after flight.
pub open spec fn all_tracks(flights: Seq<Flight>) -> Seq<Track>
    decreases flights.len(),
{
    if flights.len() == 0 {
        Seq::empty()
    } else {
        all_tracks(flights.drop_last()) + flights.last().tracks@
    }
}

/// What chrono makes of a timestamp: the text is parsed as a date and time
/// with an offset, in chrono's relaxed RFC 3339 form, moved to UTC and
/// written out again; `None` where chrono does not accept the text.
pub uninterp spec fn utc_timestamp_text(timestamp: Seq<char>) -> Option<Seq<char>>;

/// Every timestamp of the flights is one that chrono accepts.
pub open spec fn timestamps_parse(flights: Seq<Flight>) -> bool {
    forall|i: int|
        0 <= i < all_tracks(flights).len() ==> utc_timestamp_text(
            #[trigger] all_tracks(flights)[i].timestamp@,
        ) is Some
}

/// Calls chrono: `str::parse::<DateTime<Utc>>`, that is `DateTime<Utc>`'s
/// `FromStr`, and on success the `Display` of the value through `to_string`.
/// Both depend on the text alone; the contract names the result and claims
/// nothing else about it.
#[verifier::external_body]
fn render_utc_timestamp(timestamp: &str) -> (text: Option<String>)
    ensures
        match text {
            Some(text) => utc_timestamp_text(timestamp@) == Some(text@),
            None => utc_timestamp_text(timestamp@) is None,
        },
{
    match timestamp.parse::<chrono::DateTime<chrono::Utc>>() {
        Ok(moment) => Some(moment.to_string()),
        Err(_) => None,
    }
}

/// The numeric fields of a track point.
#[derive(Clone, Copy, Debug)]
pub enum NumericField {
    Gspeed,
    Alt,
    Vspeed,
    Track,
}

/// The textual fields of a track point.
#[derive(Clone, Copy, Debug)]
pub enum TextField {
    Lat,
    Lon,
    Squawk,
    Callsign,
    Source,
}

impl NumericField {
    /// The value of the field in a track point.
    pub open spec fn of(self, point: Track) -> u32 {
        match self {
            NumericField::Gspeed => point.gspeed,
            NumericField::Alt => point.alt,
            NumericField::Vspeed => point.vspeed,
            NumericField::Track => point.track,
        }
    }

    /// Reads the field.
    pub fn read(self, point: &Track) -> (value: u32)
        ensures
            value == self.of(*point),
    {
        match self {
            NumericField::Gspeed => point.gspeed,
            NumericField::Alt => point.alt,
            NumericField::Vspeed => point.vspeed,
            NumericField::Track => point.track,
        }
    }
}

impl TextField {
    /// The text of the field in a track point.
    pub open spec fn of(self, point: Track) -> Seq<char> {
        match self {
            TextField::Lat => point.lat@,
            TextField::Lon => point.lon@,
            TextField::Squawk => point.squawk@,
            TextField::Callsign => point.callsign@,
            TextField::Source => point.source@,
        }
    }

    /// Reads the field.
    pub fn read(self, point: &Track) -> (text: &str)
        ensures
            text@ == self.of(*point),
    {
        match self {
            TextField::Lat => point.lat.as_str(),
            TextField::Lon => point.lon.as_str(),
            TextField::Squawk => point.squawk.as_str(),
            TextField::Callsign => point.callsign.as_str(),
            TextField::Source => point.source.as_str(),
        }
    }
}

/// The values of a numeric field over the given track points, in order.
pub open spec fn numbers_of(points: Seq<Track>, field: NumericField) -> Seq<u32> {
    Seq::new(points.len(), |i: int| field.of(points[i]))
}

/// `texts` holds the text of a field for each of the track points, in order.
pub open spec fn texts_are(texts: Seq<String>, points: Seq<Track>, field: TextField) -> bool {
    &&& texts.len() == points.len()
    &&& forall|i: int| 0 <= i < texts.len() ==> (#[trigger] texts[i])@ == field.of(points[i])
}

/// `texts` holds, for each of the track points in order, what chrono makes
/// of its timestamp.
pub open spec fn timestamps_are(texts: Seq<String>, points: Seq<Track>) -> bool {
    &&& texts.len() == points.len()
    &&& forall|i: int|
        0 <= i < texts.len() ==> Some((#[trigger] texts[i])@) == utc_timestamp_text(
            points[i].timestamp@,
        )
}

/// All track points of the flights, in order.
pub fn collect_tracks(flights: &[Flight]) -> (points: Vec<&Track>)
    ensures
        points@.len() == all_tracks(flights@).len(),
        forall|i: int| 0 <= i < points@.len() ==> *(#[trigger] points@[i]) == all_tracks(flights@)[i],
{
    let mut points: Vec<&Track> = Vec::new();
    let mut f: usize = 0;
    assert(flights@.take(0) =~= Seq::<Flight>::empty());
    while f < flights.len()
        invariant
            f <= flights@.len(),
            points@.len() == all_tracks(flights@.take(f as int)).len(),
            forall|i: int|
                0 <= i < points@.len() ==> *(#[trigger] points@[i]) == all_tracks(
                    flights@.take(f as int),
                )[i],
        decreases flights@.len() - f,
    {
        let flight = &flights[f];
        let ghost before = all_tracks(flights@.take(f as int));
        proof {
            assert(flights@.take(f + 1).drop_last() =~= flights@.take(f as int));
            assert(flights@.take(f + 1).last() == flights@[f as int]);
        }
        let mut t: usize = 0;
        while t < flight.tracks.len()
            invariant
                t <= flight.tracks@.len(),
                *flight == flights@[f as int],
                points@.len() == before.len() + t,
                forall|i: int|
                    0 <= i < points@.len() ==> *(#[trigger] points@[i]) == (before
                        + flight.tracks@)[i],
            decreases flight.tracks@.len() - t,
        {
            points.push(&flight.tracks[t]);
            t = t + 1;
        }
        f = f + 1;
    }
    proof {
        assert(flights@.take(flights@.len() as int) =~= flights@);
    }
    points
}

fn numbers_from_flight(flights: &[Flight], field: NumericField) -> (values: Vec<u32>)
    ensures
        values@ == numbers_of(all_tracks(flights@), field),
{
    let points = collect_tracks(flights);
    let mut values: Vec<u32> = Vec::new();
    let mut i: usize = 0;
    while i < points.len()
        invariant
            i <= points@.len(),
            points@.len() == all_tracks(flights@).len(),
            forall|k: int|
                0 <= k < points@.len() ==> *(#[trigger] points@[k]) == all_tracks(flights@)[k],
            values@.len() == i,
            forall|k: int| 0 <= k < i ==> values@[k] == field.of(all_tracks(flights@)[k]),
        decreases points@.len() - i,
    {
        values.push(field.read(points[i]));
        i = i + 1;
    }
    assert(values@ =~= numbers_of(all_tracks(flights@), field));
    values
}

fn texts_from_flight(flights: &[Flight], field: TextField) -> (texts: Vec<String>)
    ensures
        texts_are(texts@, all_tracks(flights@), field),
{
    let points = collect_tracks(flights);
    let mut texts: Vec<String> = Vec::new();
    let mut i: usize = 0;
    while i < points.len()
        invariant
            i <= points@.len(),
            points@.len() == all_tracks(flights@).len(),
            forall|k: int|
                0 <= k < points@.len() ==> *(#[trigger] points@[k]) == all_tracks(flights@)[k],
            texts@.len() == i,
            forall|k: int|
                0 <= k < i ==> (#[trigger] texts@[k])@ == field.of(all_tracks(flights@)[k]),
        decreases points@.len() - i,
    {
        texts.push(field.read(points[i]).to_owned());
        i = i + 1;
    }
    texts
}

/// The timestamps of all track points, each as chrono writes it in UTC.
/// Every timestamp must be one that chrono accepts;
/// [`try_get_timestamps_from_flight`] is for data of which that is not known.
pub fn get_timestamps_from_flight(flights: &[Flight]) -> (texts: Vec<String>)
    requires
        timestamps_parse(flights@),
    ensures
        timestamps_are(texts@, all_tracks(flights@)),
{
    let points = collect_tracks(flights);
    let mut texts: Vec<String> = Vec::new();
    let mut i: usize = 0;
    while i < points.len()
        invariant
            i <= points@.len(),
            timestamps_parse(flights@),
            points@.len() == all_tracks(flights@).len(),
            forall|k: int|
                0 <= k < points@.len() ==> *(#[trigger] points@[k]) == all_tracks(flights@)[k],
            texts@.len() == i,
            forall|k: int|
                0 <= k < i ==> Some((#[trigger] texts@[k])@) == utc_timestamp_text(
                    all_tracks(flights@)[k].timestamp@,
                ),
        decreases points@.len() - i,
    {
        assert(utc_timestamp_text(all_tracks(flights@)[i as int].timestamp@) is Some);
        match render_utc_timestamp(points[i].timestamp.as_str()) {
            Some(text) => {
                texts.push(text);
            },
            None => {},
        }
        i = i + 1;
    }
    texts
}

/// The timestamps of all track points, each as chrono writes it in UTC, or
/// `None` if chrono does not accept one of them.
pub fn try_get_timestamps_from_flight(flights: &[Flight]) -> (texts: Option<Vec<String>>)
    ensures
        texts is Some <==> timestamps_parse(flights@),
        texts matches Some(texts) ==> timestamps_are(texts@, all_tracks(flights@)),
{
    let points = collect_tracks(flights);
    let mut i: usize = 0;
    while i < points.len()
        invariant
            i <= points@.len(),
            points@.len() == all_tracks(flights@).len(),
            forall|k: int|
                0 <= k < points@.len() ==> *(#[trigger] points@[k]) == all_tracks(flights@)[k],
            forall|k: int|
                0 <= k < i ==> utc_timestamp_text(
                    #[trigger] all_tracks(flights@)[k].timestamp@,
                ) is Some,
        decreases points@.len() - i,
    {
        if render_utc_timestamp(points[i].timestamp.as_str()).is_none() {
            assert(utc_timestamp_text(all_tracks(flights@)[i as int].timestamp@) is None);
            return None;
        }
        i = i + 1;
    }
    Some(get_timestamps_from_flight(flights))
}

/// The ground speed at every track point.
pub fn get_gspeed_from_flight(flights: &[Flight]) -> (values: Vec<u32>)
    ensures
        values@ == numbers_of(all_tracks(flights@), NumericField::Gspeed),
{
    numbers_from_flight(flights, NumericField::Gspeed)
}

/// The latitude at every track point, as decimal text.
pub fn get_lat_from_flight(flights: &[Flight]) -> (texts: Vec<String>)
    ensures
        texts_are(texts@, all_tracks(flights@), TextField::Lat),
{
    texts_from_flight(flights, TextField::Lat)
}

/// The longitude at every track point, as decimal text.
pub fn get_lon_from_flight(flights: &[Flight]) -> (texts: Vec<String>)
    ensures
        texts_are(texts@, all_tracks(flights@), TextField::Lon),
{
    texts_from_flight(flights, TextField::Lon)
}

/// The altitude at every track point.
pub fn get_alt_from_flight(flights: &[Flight]) -> (values: Vec<u32>)
    ensures
        values@ == numbers_of(all_tracks(flights@), NumericField::Alt),
{
    numbers_from_flight(flights, NumericField::Alt)
}

/// The vertical speed at every track point.
pub fn get_vspeed_from_flight(flights: &[Flight]) -> (values: Vec<u32>)
    ensures
        values@ == numbers_of(all_tracks(flights@), NumericField::Vspeed),
{
    numbers_from_flight(flights, NumericField::Vspeed)
}

/// The heading at every track point.
pub fn get_track_from_flight(flights: &[Flight]) -> (values: Vec<u32>)
    ensures
        values@ == numbers_of(all_tracks(flights@), NumericField::Track),
{
    numbers_from_flight(flights, NumericField::Track)
}

/// The squawk code at every track point.
pub fn get_squack_from_flight(flights: &[Flight]) -> (texts: Vec<String>)
    ensures
        texts_are(texts@, all_tracks(flights@), TextField::Squawk),
{
    texts_from_flight(flights, TextField::Squawk)
}

/// The callsign at every track point.
pub fn get_callsign_from_flight(flights: &[Flight]) -> (texts: Vec<String>)
    ensures
        texts_are(texts@, all_tracks(flights@), TextField::Callsign),
{
    texts_from_flight(flights, TextField::Callsign)
}

/// The data source of every track point.
pub fn get_source_from_flight(flights: &[Flight]) -> (texts: Vec<String>)
    ensures
        texts_are(texts@, all_tracks(flights@), TextField::Source),
{
    texts_from_flight(flights, TextField::Source)
}

} // verus!
