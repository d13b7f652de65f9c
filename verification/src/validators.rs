//! One validation rule per query dimension.

use vstd::prelude::*;
use vstd::string::*;
use crate::error::{rejection_text, ErrorModel, FlightRadarError};
use crate::query::{ApiRange, ApiRangeEnum, Bounds};
use crate::text::{
    char_is_alphabetic, char_is_alphanumeric, decimal_string, decimal_text, push_decimal, str_eq,
};

verus! {

/// The character sets that the textual dimensions are drawn from.
#[derive(Clone, Copy, Debug)]
pub enum CharClass {
    /// Letters and digits.
    Alphanumeric,
    /// Letters, digits and `-`.
    AlphanumericOrHyphen,
    /// Letters, digits and `*`.
    AlphanumericOrStar,
    /// Letters.
    Alphabetic,
    /// Letters and `:`.
    AlphabeticOrColon,
    /// Letters and `-`.
    AlphabeticOrHyphen,
    /// The digits `0` to `9` and `.`.
    DigitOrPoint,
}

impl CharClass {
    /// Whether `c` belongs to the class, given whether it is a letter or
    /// digit and whether it is a letter.
    pub open spec fn admits_given(self, alphanumeric: bool, alphabetic: bool, c: char) -> bool {
        match self {
            CharClass::Alphanumeric => alphanumeric,
            CharClass::AlphanumericOrHyphen => alphanumeric || c == '-',
            CharClass::AlphanumericOrStar => alphanumeric || c == '*',
            CharClass::Alphabetic => alphabetic,
            CharClass::AlphabeticOrColon => alphabetic || c == ':',
            CharClass::AlphabeticOrHyphen => alphabetic || c == '-',
            CharClass::DigitOrPoint => ('0' <= c && c <= '9') || c == '.',
        }
    }

    /// Whether `c` belongs to the class.
    pub open spec fn admits(self, c: char) -> bool {
        self.admits_given(char_is_alphanumeric(c), char_is_alphabetic(c), c)
    }

    /// Whether every character of `s` belongs to the class.
    pub open spec fn admits_all(self, s: Seq<char>) -> bool {
        forall|i: int| 0 <= i < s.len() ==> self.admits(#[trigger] s[i])
    }

    /// Decides membership of one character from what is known of it:
    /// whether it is a letter or digit, and whether it is a letter.
    pub fn decide(self, alphanumeric: bool, alphabetic: bool, c: char) -> (member: bool)
        ensures
            member == self.admits_given(alphanumeric, alphabetic, c),
    {
        match self {
            CharClass::Alphanumeric => alphanumeric,
            CharClass::AlphanumericOrHyphen => alphanumeric || c == '-',
            CharClass::AlphanumericOrStar => alphanumeric || c == '*',
            CharClass::Alphabetic => alphabetic,
            CharClass::AlphabeticOrColon => alphabetic || c == ':',
            CharClass::AlphabeticOrHyphen => alphabetic || c == '-',
            CharClass::DigitOrPoint => ('0' <= c && c <= '9') || c == '.',
        }
    }

    /// Decides membership of one character.
    pub fn contains(self, c: char) -> (member: bool)
        ensures
            member == self.admits(c),
    {
        self.decide(c.is_alphanumeric(), c.is_alphabetic(), c)
    }

    /// Decides whether a whole string is drawn from the class.
    pub fn contains_all(self, s: &str) -> (all: bool)
        ensures
            all == self.admits_all(s@),
    {
        for c in it: s.chars()
            invariant
                it.seq() == s@,
                forall|i: int| 0 <= i < it.index() ==> self.admits(#[trigger] s@[i]),
        {
            if !self.contains(c) {
                return false;
            }
        }
        true
    }
}

/// What a validator decides about one candidate.
pub ghost enum Verdict {
    /// The candidate is valid and is sent as the given text.
    Accepted(Seq<char>),
    /// The candidate is left out of the request without an error.
    Dropped,
    /// The candidate is invalid; the text names the dimension and the value.
    Rejected(Seq<char>),
}

/// The verdict of a rule that either holds of a value or rejects it.
pub open spec fn rule_verdict(holds: bool, label: Seq<char>, value: Seq<char>) -> Verdict {
    if holds {
        Verdict::Accepted(value)
    } else {
        Verdict::Rejected(rejection_text(label, value))
    }
}

/// `result` says what `verdict` says: `Ok` with the accepted text, or a
/// parameter error with the rejection text.
pub open spec fn reports(result: Result<String, FlightRadarError>, verdict: Verdict) -> bool {
    match result {
        Ok(text) => verdict == Verdict::Accepted(text@),
        Err(err) => verdict matches Verdict::Rejected(msg) && err@ == ErrorModel::Parameter(msg),
    }
}

/// As [`reports`], for a validator that may also drop the candidate.
pub open spec fn reports_optional(
    result: Result<Option<String>, FlightRadarError>,
    verdict: Verdict,
) -> bool {
    match result {
        Ok(Some(text)) => verdict == Verdict::Accepted(text@),
        Ok(None) => verdict == Verdict::Dropped,
        Err(err) => verdict matches Verdict::Rejected(msg) && err@ == ErrorModel::Parameter(msg),
    }
}

/// The length of a text in UTF-8 bytes, which is the length the rules count.
pub open spec fn byte_len(s: Seq<char>) -> nat {
    vstd::utf8::encode_utf8(s).len()
}

/// The number of times that `c` occurs in a text.
pub open spec fn occurrences(s: Seq<char>, c: char) -> nat
    decreases s.len(),
{
    if s.len() == 0 {
        0
    } else {
        occurrences(s.drop_last(), c) + if s.last() == c {
            1nat
        } else {
            0nat
        }
    }
}

/// The number of `*` characters in a text.
pub open spec fn wildcard_count(s: Seq<char>) -> nat {
    occurrences(s, '*')
}

/// A decimal numeral without sign: digits, optionally followed by a point
/// and more digits.
pub open spec fn is_decimal_numeral(s: Seq<char>) -> bool {
    &&& s.len() > 0
    &&& CharClass::DigitOrPoint.admits_all(s)
    &&& occurrences(s, '.') <= 1
    &&& s.first() != '.'
    &&& s.last() != '.'
}

/// A text without the sign that opens it, if it opens with that sign.
pub open spec fn without_sign(s: Seq<char>, sign: char) -> Seq<char> {
    if s.len() > 0 && s[0] == sign {
        s.subrange(1, s.len() as int)
    } else {
        s
    }
}

/// The text of one edge of a bounding box: a decimal numeral with an
/// optional `-` before it, or one of `NaN`, `inf` and `-inf`. These are the
/// forms in which a floating-point number is written out.
pub open spec fn is_coordinate(s: Seq<char>) -> bool {
    s == "NaN"@ || s == "inf"@ || s == "-inf"@ || is_decimal_numeral(without_sign(s, '-'))
}

/// A bounding box is sent as north, south, west, east, separated by commas.
pub open spec fn bounds_text(bounds: Bounds) -> Seq<char> {
    bounds.north@ + seq![','] + bounds.south@ + seq![','] + bounds.west@ + seq![','] + bounds.east@
}

/// A bounding box is accepted when each edge is the text of a number. The
/// edges are not compared with one another.
pub open spec fn bounds_verdict(bounds: Bounds) -> Verdict {
    rule_verdict(
        is_coordinate(bounds.north@) && is_coordinate(bounds.south@) && is_coordinate(
            bounds.west@,
        ) && is_coordinate(bounds.east@),
        "Bounds: "@,
        bounds_text(bounds),
    )
}

/// Flight number: letters and digits only, longer than two bytes.
pub open spec fn is_flight_number(s: Seq<char>) -> bool {
    CharClass::Alphanumeric.admits_all(s) && byte_len(s) > 2
}

/// Callsign: letters and digits only, three to eight bytes.
pub open spec fn is_callsign(s: Seq<char>) -> bool {
    CharClass::Alphanumeric.admits_all(s) && 2 < byte_len(s) <= 8
}

/// Registration: letters, digits and `-`, two to twelve bytes.
pub open spec fn is_registration(s: Seq<char>) -> bool {
    CharClass::AlphanumericOrHyphen.admits_all(s) && 1 < byte_len(s) <= 12
}

/// Airline code, painted-as or operating-as: letters only, exactly three bytes.
pub open spec fn is_airline_code(s: Seq<char>) -> bool {
    CharClass::Alphabetic.admits_all(s) && byte_len(s) == 3
}

/// Airport code: letters and `:` only, so that a prefix such as `both:` may
/// stand before the code.
pub open spec fn is_airport_code(s: Seq<char>) -> bool {
    CharClass::AlphabeticOrColon.admits_all(s)
}

/// Route: letters and `-` only.
pub open spec fn is_route(s: Seq<char>) -> bool {
    CharClass::AlphabeticOrHyphen.admits_all(s)
}

/// Aircraft pattern: letters, digits and `*` only, with at most one `*`.
pub open spec fn is_aircraft_pattern(s: Seq<char>) -> bool {
    CharClass::AlphanumericOrStar.admits_all(s) && wildcard_count(s) <= 1
}

/// Data source: one of the three tags the API knows.
pub open spec fn is_data_source(s: Seq<char>) -> bool {
    s == "ADSB"@ || s == "MLAT"@ || s == "ESTIMATED"@
}

/// Airspace: letters only.
pub open spec fn is_airspace(s: Seq<char>) -> bool {
    CharClass::Alphabetic.admits_all(s)
}

/// Category: one letter of the alphabet `PCMJTHBGDVON`.
pub open spec fn is_category(c: char) -> bool {
    c == 'P' || c == 'C' || c == 'M' || c == 'J' || c == 'T' || c == 'H' || c == 'B' || c == 'G'
        || c == 'D' || c == 'V' || c == 'O' || c == 'N'
}

/// The largest squawk code.
pub const MAX_SQUAWK: u16 = 7777;

/// The largest ground speed that may be asked for.
pub const MAX_GSPEED: u32 = 5000;

/// A range as it is sent: minimum, `-`, maximum.
pub open spec fn range_text(min: nat, max: nat) -> Seq<char> {
    decimal_text(min) + seq!['-'] + decimal_text(max)
}

pub open spec fn flight_verdict(s: Seq<char>) -> Verdict {
    rule_verdict(is_flight_number(s), "Flight #: "@, s)
}

pub open spec fn callsign_verdict(s: Seq<char>) -> Verdict {
    rule_verdict(is_callsign(s), "Callsign: "@, s)
}

pub open spec fn registration_verdict(s: Seq<char>) -> Verdict {
    rule_verdict(is_registration(s), "Registration #: "@, s)
}

pub open spec fn painted_as_verdict(s: Seq<char>) -> Verdict {
    rule_verdict(is_airline_code(s), "Painted As: "@, s)
}

pub open spec fn operating_as_verdict(s: Seq<char>) -> Verdict {
    rule_verdict(is_airline_code(s), "Operating As: "@, s)
}

pub open spec fn airport_verdict(s: Seq<char>) -> Verdict {
    rule_verdict(is_airport_code(s), "Airport: "@, s)
}

pub open spec fn route_verdict(s: Seq<char>) -> Verdict {
    rule_verdict(is_route(s), "Route: "@, s)
}

/// The verdict on an aircraft pattern, given whether it is drawn from
/// letters, digits and `*`, and how many `*` it holds. With exactly one `*`
/// it is accepted. A type code without a `*` is dropped: it is left out of
/// the request and no error is raised. Anything else, two wildcards
/// included, is rejected.
pub open spec fn aircraft_verdict_given(drawn: bool, wildcards: nat, s: Seq<char>) -> Verdict {
    if !drawn || wildcards > 1 {
        Verdict::Rejected(rejection_text("Aircraft: "@, s))
    } else if wildcards == 1 {
        Verdict::Accepted(s)
    } else {
        Verdict::Dropped
    }
}

/// The verdict on an aircraft pattern.
pub open spec fn aircraft_verdict(s: Seq<char>) -> Verdict {
    aircraft_verdict_given(CharClass::AlphanumericOrStar.admits_all(s), wildcard_count(s), s)
}

pub open spec fn data_source_verdict(s: Seq<char>) -> Verdict {
    rule_verdict(is_data_source(s), "Data Source: "@, s)
}

pub open spec fn airspace_verdict(s: Seq<char>) -> Verdict {
    rule_verdict(is_airspace(s), "Airspace: "@, s)
}

/// An altitude range is accepted whatever its bounds are.
pub open spec fn altitude_range_verdict(range: ApiRange) -> Verdict {
    Verdict::Accepted(range_text(range.min as nat, range.max as nat))
}

pub open spec fn squawk_verdict(squawk: u16) -> Verdict {
    rule_verdict(squawk <= MAX_SQUAWK, "Squawk: "@, decimal_text(squawk as nat))
}

pub open spec fn category_verdict(c: char) -> Verdict {
    rule_verdict(is_category(c), "Category: "@, seq![c])
}

/// A ground speed is accepted up to [`MAX_GSPEED`]; of a range the maximum
/// decides, and the rejection names it.
pub open spec fn gspeed_verdict(gspeed: ApiRangeEnum) -> Verdict {
    match gspeed {
        ApiRangeEnum::U32(speed) => rule_verdict(
            speed <= MAX_GSPEED,
            "GSpeed: "@,
            decimal_text(speed as nat),
        ),
        ApiRangeEnum::ApiRange(range) => if range.max <= MAX_GSPEED {
            Verdict::Accepted(range_text(range.min as nat, range.max as nat))
        } else {
            Verdict::Rejected(rejection_text("GSpeed: "@, decimal_text(range.max as nat)))
        },
    }
}

/// A limit is passed through as it is.
pub open spec fn limit_verdict(limit: u32) -> Verdict {
    Verdict::Accepted(decimal_text(limit as nat))
}

fn byte_length(s: &str) -> (len: usize)
    ensures
        len == byte_len(s@),
{
    s.as_bytes().len()
}

/// Accepts the candidate if its rule holds, and rejects it under the
/// dimension's label if not.
pub fn judge(holds: bool, label: &str, candidate: &str) -> (result: Result<String, FlightRadarError>)
    ensures
        reports(result, rule_verdict(holds, label@, candidate@)),
{
    if holds {
        Ok(candidate.to_owned())
    } else {
        Err(FlightRadarError::parameter(label, candidate))
    }
}

/// The number of times that `wanted` occurs in `s`, counted up to two.
fn count_up_to_two(s: &str, wanted: char) -> (count: u8)
    ensures
        count <= 2,
        count < 2 ==> count == occurrences(s@, wanted),
        count == 2 ==> occurrences(s@, wanted) >= 2,
{
    let mut count: u8 = 0;
    for c in it: s.chars()
        invariant
            it.seq() == s@,
            count <= 2,
            count < 2 ==> count == occurrences(s@.take(it.index()), wanted),
            count == 2 ==> occurrences(s@.take(it.index()), wanted) >= 2,
    {
        proof {
            assert(s@.take(it.index() + 1).drop_last() =~= s@.take(it.index()));
        }
        if c == wanted && count < 2 {
            count = count + 1;
        }
    }
    proof {
        assert(s@.take(s@.len() as int) =~= s@);
    }
    count
}

fn range_string(range: &ApiRange) -> (text: String)
    ensures
        text@ == range_text(range.min as nat, range.max as nat),
{
    let mut text = decimal_string(range.min as u64);
    text.push('-');
    push_decimal(&mut text, range.max as u64);
    text
}

fn strip_sign<'a>(s: &'a str, sign: char) -> (rest: &'a str)
    ensures
        rest@ == without_sign(s@, sign),
{
    let len = s.unicode_len();
    if len > 0 && s.get_char(0) == sign {
        s.substring_char(1, len)
    } else {
        s
    }
}

fn is_decimal_numeral_str(s: &str) -> (holds: bool)
    ensures
        holds == is_decimal_numeral(s@),
{
    let len = s.unicode_len();
    len > 0 && CharClass::DigitOrPoint.contains_all(s) && count_up_to_two(s, '.') <= 1
        && s.get_char(0) != '.' && s.get_char(len - 1) != '.'
}

/// Decides whether a text is the text of one edge of a bounding box.
pub fn is_coordinate_str(s: &str) -> (holds: bool)
    ensures
        holds == is_coordinate(s@),
{
    if str_eq(s, "NaN") || str_eq(s, "inf") || str_eq(s, "-inf") {
        return true;
    }
    is_decimal_numeral_str(strip_sign(s, '-'))
}

/// Validates a bounding box and renders it.
pub fn validate_bounds(bounds: &Bounds) -> (result: Result<String, FlightRadarError>)
    ensures
        reports(result, bounds_verdict(*bounds)),
        result is Ok <==> is_coordinate(bounds.north@) && is_coordinate(bounds.south@)
            && is_coordinate(bounds.west@) && is_coordinate(bounds.east@),
{
    let mut text = bounds.north.clone();
    text.push(',');
    text.append(bounds.south.as_str());
    text.push(',');
    text.append(bounds.west.as_str());
    text.push(',');
    text.append(bounds.east.as_str());
    assert(text@ =~= bounds_text(*bounds));
    let holds = is_coordinate_str(bounds.north.as_str()) && is_coordinate_str(
        bounds.south.as_str(),
    ) && is_coordinate_str(bounds.west.as_str()) && is_coordinate_str(bounds.east.as_str());
    judge(holds, "Bounds: ", text.as_str())
}

/// Validates a flight number.
pub fn validate_flight(candidate: &str) -> (result: Result<String, FlightRadarError>)
    ensures
        reports(result, flight_verdict(candidate@)),
        result is Ok <==> is_flight_number(candidate@),
{
    let holds = CharClass::Alphanumeric.contains_all(candidate) && byte_length(candidate) > 2;
    judge(holds, "Flight #: ", candidate)
}

/// Validates a callsign.
pub fn validate_callsign(candidate: &str) -> (result: Result<String, FlightRadarError>)
    ensures
        reports(result, callsign_verdict(candidate@)),
        result is Ok <==> is_callsign(candidate@),
{
    let holds = CharClass::Alphanumeric.contains_all(candidate) && byte_length(candidate) > 2
        && byte_length(candidate) <= 8;
    judge(holds, "Callsign: ", candidate)
}

/// Validates an aircraft registration.
pub fn validate_registration(candidate: &str) -> (result: Result<String, FlightRadarError>)
    ensures
        reports(result, registration_verdict(candidate@)),
        result is Ok <==> is_registration(candidate@),
{
    let holds = CharClass::AlphanumericOrHyphen.contains_all(candidate) && byte_length(candidate) > 1
        && byte_length(candidate) <= 12;
    judge(holds, "Registration #: ", candidate)
}

/// Validates the code of the airline whose livery the aircraft wears.
pub fn validate_painted_as(candidate: &str) -> (result: Result<String, FlightRadarError>)
    ensures
        reports(result, painted_as_verdict(candidate@)),
        result is Ok <==> is_airline_code(candidate@),
{
    let holds = CharClass::Alphabetic.contains_all(candidate) && byte_length(candidate) == 3;
    judge(holds, "Painted As: ", candidate)
}

/// Validates the code of the airline that operates the flight.
pub fn validate_operating_as(candidate: &str) -> (result: Result<String, FlightRadarError>)
    ensures
        reports(result, operating_as_verdict(candidate@)),
        result is Ok <==> is_airline_code(candidate@),
{
    let holds = CharClass::Alphabetic.contains_all(candidate) && byte_length(candidate) == 3;
    judge(holds, "Operating As: ", candidate)
}

/// Validates an airport code, with or without a direction prefix.
pub fn validate_airport(candidate: &str) -> (result: Result<String, FlightRadarError>)
    ensures
        reports(result, airport_verdict(candidate@)),
        result is Ok <==> is_airport_code(candidate@),
{
    let holds = CharClass::AlphabeticOrColon.contains_all(candidate);
    judge(holds, "Airport: ", candidate)
}

/// Validates a route between two airports or countries.
pub fn validate_route(candidate: &str) -> (result: Result<String, FlightRadarError>)
    ensures
        reports(result, route_verdict(candidate@)),
        result is Ok <==> is_route(candidate@),
{
    let holds = CharClass::AlphabeticOrHyphen.contains_all(candidate);
    judge(holds, "Route: ", candidate)
}

/// Validates an aircraft pattern. `Ok(None)` says that the candidate is
/// well formed but holds no wildcard, and is therefore left out.
pub fn validate_aircraft(candidate: &str) -> (result: Result<Option<String>, FlightRadarError>)
    ensures
        reports_optional(result, aircraft_verdict(candidate@)),
        result is Ok <==> is_aircraft_pattern(candidate@),
{
    let drawn = CharClass::AlphanumericOrStar.contains_all(candidate);
    let wildcards = count_up_to_two(candidate, '*');
    judge_aircraft(drawn, wildcards, candidate)
}

/// Decides on an aircraft pattern from what is known of it: whether it is
/// drawn from letters, digits and `*`, and how many `*` it holds, where two
/// stands for two or more.
pub fn judge_aircraft(drawn: bool, wildcards: u8, candidate: &str) -> (result: Result<
    Option<String>,
    FlightRadarError,
>)
    ensures
        reports_optional(result, aircraft_verdict_given(drawn, wildcards as nat, candidate@)),
{
    if !drawn || wildcards > 1 {
        Err(FlightRadarError::parameter("Aircraft: ", candidate))
    } else if wildcards == 1 {
        Ok(Some(candidate.to_owned()))
    } else {
        Ok(None)
    }
}

/// Validates a data-source tag.
pub fn validate_data_source(candidate: &str) -> (result: Result<String, FlightRadarError>)
    ensures
        reports(result, data_source_verdict(candidate@)),
        result is Ok <==> is_data_source(candidate@),
{
    let holds = str_eq(candidate, "ADSB") || str_eq(candidate, "MLAT") || str_eq(
        candidate,
        "ESTIMATED",
    );
    judge(holds, "Data Source: ", candidate)
}

/// Validates an airspace code.
pub fn validate_airspace(candidate: &str) -> (result: Result<String, FlightRadarError>)
    ensures
        reports(result, airspace_verdict(candidate@)),
        result is Ok <==> is_airspace(candidate@),
{
    let holds = CharClass::Alphabetic.contains_all(candidate);
    judge(holds, "Airspace: ", candidate)
}

/// Renders an altitude range; every range is accepted.
pub fn validate_altitude_range(range: &ApiRange) -> (result: Result<String, FlightRadarError>)
    ensures
        reports(result, altitude_range_verdict(*range)),
        result is Ok,
{
    Ok(range_string(range))
}

/// Validates a squawk code.
pub fn validate_squawk(squawk: u16) -> (result: Result<String, FlightRadarError>)
    ensures
        reports(result, squawk_verdict(squawk)),
        result is Ok <==> squawk <= MAX_SQUAWK,
{
    let text = decimal_string(squawk as u64);
    judge(squawk <= MAX_SQUAWK, "Squawk: ", text.as_str())
}

/// Validates a category letter.
pub fn validate_category(category: char) -> (result: Result<String, FlightRadarError>)
    ensures
        reports(result, category_verdict(category)),
        result is Ok <==> is_category(category),
{
    let c = category;
    let holds = c == 'P' || c == 'C' || c == 'M' || c == 'J' || c == 'T' || c == 'H' || c == 'B'
        || c == 'G' || c == 'D' || c == 'V' || c == 'O' || c == 'N';
    let mut text = String::new();
    text.push(c);
    assert(text@ =~= seq![c]);
    judge(holds, "Category: ", text.as_str())
}

/// Validates a ground-speed filter, a single speed or a range.
pub fn validate_gspeed(gspeed: &ApiRangeEnum) -> (result: Result<String, FlightRadarError>)
    ensures
        reports(result, gspeed_verdict(*gspeed)),
        result is Ok <==> match *gspeed {
            ApiRangeEnum::U32(speed) => speed <= MAX_GSPEED,
            ApiRangeEnum::ApiRange(range) => range.max <= MAX_GSPEED,
        },
{
    match gspeed {
        ApiRangeEnum::U32(speed) => {
            let text = decimal_string(*speed as u64);
            judge(*speed <= MAX_GSPEED, "GSpeed: ", text.as_str())
        },
        ApiRangeEnum::ApiRange(range) => {
            if range.max <= MAX_GSPEED {
                Ok(range_string(range))
            } else {
                let text = decimal_string(range.max as u64);
                Err(FlightRadarError::parameter("GSpeed: ", text.as_str()))
            }
        },
    }
}

/// Renders a result limit; every limit is accepted.
pub fn validate_limit(limit: u32) -> (result: Result<String, FlightRadarError>)
    ensures
        reports(result, limit_verdict(limit)),
        result is Ok,
{
    Ok(decimal_string(limit as u64))
}

/// The value of a hexadecimal digit, if the character is one.
pub open spec fn hex_digit_value(c: char) -> Option<nat> {
    if '0' <= c <= '9' {
        Some((c as nat - '0' as nat) as nat)
    } else if 'a' <= c <= 'f' {
        Some((c as nat - 'a' as nat + 10) as nat)
    } else if 'A' <= c <= 'F' {
        Some((c as nat - 'A' as nat + 10) as nat)
    } else {
        None
    }
}

/// Every character is a hexadecimal digit.
pub open spec fn all_hex_digits(s: Seq<char>) -> bool {
    forall|i: int| 0 <= i < s.len() ==> hex_digit_value(#[trigger] s[i]) is Some
}

/// The number that a sequence of hexadecimal digits writes.
pub open spec fn hex_value(s: Seq<char>) -> nat
    decreases s.len(),
{
    if s.len() == 0 {
        0
    } else {
        match hex_digit_value(s.last()) {
            Some(digit) => 16 * hex_value(s.drop_last()) + digit,
            None => 16 * hex_value(s.drop_last()),
        }
    }
}

/// A flight identifier: a base-16 numeral of an unsigned 64-bit number, that
/// is one or more hexadecimal digits of either case, optionally after a `+`,
/// whose value fits in 64 bits.
pub open spec fn is_flight_id(s: Seq<char>) -> bool {
    let digits = without_sign(s, '+');
    digits.len() > 0 && all_hex_digits(digits) && hex_value(digits) <= u64::MAX
}

/// A usage period: one of `24h`, `7d`, `30d`, `1y`.
pub open spec fn is_usage_period(s: Seq<char>) -> bool {
    s == "24h"@ || s == "7d"@ || s == "30d"@ || s == "1y"@
}

/// The value of a prefix never exceeds the value of the whole numeral.
proof fn lemma_hex_value_grows(s: Seq<char>, count: int)
    requires
        0 <= count <= s.len(),
    ensures
        hex_value(s.take(count)) <= hex_value(s),
    decreases s.len() - count,
{
    if count == s.len() {
        assert(s.take(count) =~= s);
    } else {
        assert(s.take(count + 1).drop_last() =~= s.take(count));
        lemma_hex_value_grows(s, count + 1);
    }
}

fn hex_digit(c: char) -> (digit: Option<u64>)
    ensures
        match digit {
            Some(value) => hex_digit_value(c) == Some(value as nat) && value < 16,
            None => hex_digit_value(c) is None,
        },
{
    let code = c as u32;
    if '0' as u32 <= code && code <= '9' as u32 {
        Some((code - '0' as u32) as u64)
    } else if 'a' as u32 <= code && code <= 'f' as u32 {
        Some((code - 'a' as u32 + 10) as u64)
    } else if 'A' as u32 <= code && code <= 'F' as u32 {
        Some((code - 'A' as u32 + 10) as u64)
    } else {
        None
    }
}

/// Decides whether a text is a flight identifier.
pub fn parses_as_hex(text: &str) -> (valid: bool)
    ensures
        valid == is_flight_id(text@),
{
    let digits = strip_sign(text, '+');
    if digits.unicode_len() == 0 {
        return false;
    }
    let mut value: u64 = 0;
    for c in it: digits.chars()
        invariant
            it.seq() == digits@,
            digits@ == without_sign(text@, '+'),
            all_hex_digits(digits@.take(it.index())),
            value == hex_value(digits@.take(it.index())),
    {
        proof {
            assert(digits@.take(it.index() + 1).drop_last() =~= digits@.take(it.index()));
        }
        let digit = match hex_digit(c) {
            Some(digit) => digit,
            None => {
                return false;
            },
        };
        if value > (u64::MAX - digit) / 16 {
            proof {
                assert(hex_value(digits@.take(it.index() + 1)) > u64::MAX);
                lemma_hex_value_grows(digits@, it.index() + 1);
            }
            return false;
        }
        value = value * 16 + digit;
    }
    proof {
        assert(digits@.take(digits@.len() as int) =~= digits@);
    }
    true
}

/// Decides whether a text is a usage period.
pub fn is_usage_period_str(text: &str) -> (valid: bool)
    ensures
        valid == is_usage_period(text@),
{
    str_eq(text, "24h") || str_eq(text, "7d") || str_eq(text, "30d") || str_eq(text, "1y")
}

} // verus!
