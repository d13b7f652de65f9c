use flightradar24_api::client::{
    Airline, Airport, AirportLite, ApiEndpointUsage, ApiRange, ApiRangeEnum, ApiRequest,
    ApiUsageResponse, Bounds, Country, Flight, FlightRadarClient, FullLiveFlightData,
    FullLiveFlightQuery, FullLiveFlightResponse, LightLiveFlightData, LightLiveFlightResponse,
    ResponseShape, Timezone, Track,
};
use flightradar24_api::error::FlightRadarError;
use flightradar24_api::flight_tracks_helper::{
    get_alt_from_flight, get_callsign_from_flight, get_gspeed_from_flight, get_lat_from_flight,
    get_lon_from_flight, get_source_from_flight, get_squack_from_flight,
    get_timestamps_from_flight, get_track_from_flight, get_vspeed_from_flight,
    try_get_timestamps_from_flight,
};

const SANDBOX: &str = "https://fr24api.flightradar24.com/api/sandbox/";

fn setup_client() -> FlightRadarClient {
    let mut client = FlightRadarClient::new("sandbox-key".to_string());
    client.update_base_url(SANDBOX.to_string());
    client
}

fn bounds_in() -> Bounds {
    Bounds {
        north: 42.473f64.to_string(),
        south: 37.331f64.to_string(),
        west: (-10.014f64).to_string(),
        east: (-4.115f64).to_string(),
    }
}

fn strings(items: &[&str]) -> Vec<String> {
    items.iter().map(|s| s.to_string()).collect()
}

fn full_query() -> FullLiveFlightQuery {
    FullLiveFlightQuery {
        bounds: Some(bounds_in()),
        squawks: Some(vec![2222, 3333, 5555, 7777]),
        flights: Some(strings(&["DL4204", "aa1"])),
        callsigns: Some(strings(&["WJA329", "w1ssstt"])),
        registrations: Some(strings(&["D-AFAM", "E1"])),
        painted_as: Some(strings(&["SAS", "ART", "aaa"])),
        operating_as: Some(strings(&["SAS", "ART", "aaa"])),
        airports: Some(strings(&["LHR", "both:ESSA"])),
        routes: Some(strings(&["SE-US", "ESSA-JFK"])),
        aircraft: Some(strings(&["B38M", "A32*", "*33"])),
        altitude_ranges: Some(vec![ApiRange { max: 3333, min: 2222 }]),
        categories: Some(vec!['B', 'P']),
        data_sources: Some(strings(&["MLAT"])),
        airspaces: Some(strings(&["ESAA", "DFZZ"])),
        gspeed: Some(ApiRangeEnum::ApiRange(ApiRange { max: 5000, min: 2222 })),
        limit: Some(4444),
    }
}

const FULL_QUERY_TEXT: &str = "?bounds=42.473,37.331,-10.014,-4.115&flights=DL4204,aa1\
&callsigns=WJA329,w1ssstt&registrations=D-AFAM,E1&painted_as=SAS,ART,aaa\
&operating_as=SAS,ART,aaa&airports=LHR,both:ESSA&routes=SE-US,ESSA-JFK&aircraft=A32*,*33\
&altitude_ranges=2222-3333&squawks=2222,3333,5555,7777&categories=B,P&data_sources=MLAT\
&airspaces=ESAA,DFZZ&gspeed=2222-5000&limit=4444";

fn parameter_text(result: Result<ApiRequest, FlightRadarError>) -> String {
    match result {
        Err(FlightRadarError::Parameter(msg)) => msg,
        other => panic!("expected a parameter error, got {:?}", other),
    }
}

fn rejection(result: Result<String, FlightRadarError>) -> String {
    match result {
        Err(FlightRadarError::Parameter(msg)) => msg,
        other => panic!("expected a parameter error, got {:?}", other),
    }
}

fn point(timestamp: &str, gspeed: u32) -> Track {
    Track {
        timestamp: timestamp.to_string(),
        lat: 59.6519f64.to_string(),
        lon: 17.9186f64.to_string(),
        alt: 36000,
        gspeed,
        vspeed: 64,
        track: 270,
        squawk: "2025".to_string(),
        callsign: "SAS1415".to_string(),
        source: "ADSB".to_string(),
    }
}

#[test]
fn check_flight_tracks_by_id() {
    let client = setup_client();
    let flight_id = "390163bf"; // Must be hexcode

    let request = client.get_flight_tracks_by_id(flight_id).unwrap();
    assert_eq!(
        request.url,
        "https://fr24api.flightradar24.com/api/sandbox/flight-tracks?flight_id=390163bf"
    );

    let flight_list = vec![Flight {
        id: flight_id.to_string(),
        tracks: vec![
            point("2025-02-14T11:47:06Z", 0),
            point("2025-02-14T11:49:14Z", 153),
            point("2025-02-14T11:50:21Z", 161),
        ],
    }];

    // Actually test
    assert_eq!(3, get_gspeed_from_flight(&flight_list).len());
    assert_eq!(3, get_timestamps_from_flight(&flight_list).len());
    assert_eq!(3, get_lon_from_flight(&flight_list).len());
    assert_eq!(3, get_alt_from_flight(&flight_list).len());
    assert_eq!(3, get_vspeed_from_flight(&flight_list).len());
    assert_eq!(3, get_track_from_flight(&flight_list).len());
    assert_eq!(3, get_squack_from_flight(&flight_list).len());
    assert_eq!(3, get_callsign_from_flight(&flight_list).len());
    assert_eq!(3, get_source_from_flight(&flight_list).len());
}

#[test]
fn helpers_read_every_track_in_order() {
    let flights = vec![
        Flight { id: "a".to_string(), tracks: vec![point("2025-02-14T11:47:06Z", 1)] },
        Flight { id: "b".to_string(), tracks: vec![] },
        Flight {
            id: "c".to_string(),
            tracks: vec![point("2025-02-14T11:49:14Z", 2), point("2025-02-14T11:50:21Z", 3)],
        },
    ];
    assert_eq!(get_gspeed_from_flight(&flights), vec![1, 2, 3]);
    assert_eq!(get_lat_from_flight(&flights), strings(&["59.6519", "59.6519", "59.6519"]));
    assert_eq!(get_lon_from_flight(&flights), strings(&["17.9186", "17.9186", "17.9186"]));
    assert_eq!(get_alt_from_flight(&flights), vec![36000, 36000, 36000]);
    assert_eq!(get_vspeed_from_flight(&flights), vec![64, 64, 64]);
    assert_eq!(get_track_from_flight(&flights), vec![270, 270, 270]);
    assert_eq!(get_squack_from_flight(&flights), strings(&["2025", "2025", "2025"]));
    assert_eq!(get_callsign_from_flight(&flights), strings(&["SAS1415", "SAS1415", "SAS1415"]));
    assert_eq!(get_source_from_flight(&flights), strings(&["ADSB", "ADSB", "ADSB"]));
    let none: Vec<Flight> = Vec::new();
    assert!(get_gspeed_from_flight(&none).is_empty());
    assert!(get_source_from_flight(&none).is_empty());
}

#[test]
fn timestamps_are_written_in_utc() {
    let flights = vec![Flight {
        id: "a".to_string(),
        tracks: vec![point("2025-02-12T23:12:01Z", 1), point("2025-02-13 01:00:00+02:00", 2)],
    }];
    let expected = strings(&["2025-02-12 23:12:01 UTC", "2025-02-12 23:00:00 UTC"]);
    assert_eq!(get_timestamps_from_flight(&flights), expected);
    assert_eq!(try_get_timestamps_from_flight(&flights), Some(expected));
}

#[test]
fn unreadable_timestamp_gives_none() {
    let flights = vec![Flight {
        id: "a".to_string(),
        tracks: vec![point("2025-02-12T23:12:01Z", 1), point("yesterday", 2)],
    }];
    assert_eq!(try_get_timestamps_from_flight(&flights), None);
}

#[test]
fn full_query_serializes_in_fixed_order() {
    let text = FlightRadarClient::build_query_params(&full_query()).unwrap();
    assert_eq!(text, FULL_QUERY_TEXT);
}

#[test]
fn serialization_is_repeatable() {
    let query = full_query();
    let first = FlightRadarClient::build_query_params(&query).unwrap();
    let second = FlightRadarClient::build_query_params(&query).unwrap();
    assert_eq!(first, second);
}

#[test]
fn empty_query_serializes_to_nothing() {
    let text = FlightRadarClient::build_query_params(&FullLiveFlightQuery::default()).unwrap();
    assert_eq!(text, "");
}

#[test]
fn empty_dimension_is_not_written() {
    let query = FullLiveFlightQuery {
        flights: Some(Vec::new()),
        squawks: Some(Vec::new()),
        limit: Some(7),
        ..FullLiveFlightQuery::default()
    };
    assert_eq!(FlightRadarClient::build_query_params(&query).unwrap(), "&limit=7");
}

#[test]
fn categories_keep_their_order() {
    let query =
        FullLiveFlightQuery { categories: Some(vec!['B', 'P']), ..FullLiveFlightQuery::default() };
    assert_eq!(FlightRadarClient::build_query_params(&query).unwrap(), "&categories=B,P");
}

#[test]
fn category_outside_the_alphabet_is_rejected() {
    let query =
        FullLiveFlightQuery { categories: Some(vec!['B', 'X']), ..FullLiveFlightQuery::default() };
    assert_eq!(rejection(FlightRadarClient::build_query_params(&query)), "Category: X");
}

#[test]
fn squawks_up_to_7777_are_accepted() {
    let query = FullLiveFlightQuery {
        squawks: Some(vec![2222, 3333, 5555, 7777]),
        ..FullLiveFlightQuery::default()
    };
    assert_eq!(
        FlightRadarClient::build_query_params(&query).unwrap(),
        "&squawks=2222,3333,5555,7777"
    );
}

#[test]
fn squawk_8000_is_rejected_by_value() {
    let query = FullLiveFlightQuery { squawks: Some(vec![8000]), ..FullLiveFlightQuery::default() };
    assert_eq!(rejection(FlightRadarClient::build_query_params(&query)), "Squawk: 8000");
    let query = FullLiveFlightQuery { squawks: Some(vec![7778]), ..FullLiveFlightQuery::default() };
    assert_eq!(rejection(FlightRadarClient::build_query_params(&query)), "Squawk: 7778");
}

#[test]
fn gspeed_range_boundary() {
    let accepted = FullLiveFlightQuery {
        gspeed: Some(ApiRangeEnum::ApiRange(ApiRange { min: 2222, max: 5000 })),
        ..FullLiveFlightQuery::default()
    };
    assert_eq!(FlightRadarClient::build_query_params(&accepted).unwrap(), "&gspeed=2222-5000");
    let rejected = FullLiveFlightQuery {
        gspeed: Some(ApiRangeEnum::ApiRange(ApiRange { min: 2222, max: 5001 })),
        ..FullLiveFlightQuery::default()
    };
    assert_eq!(rejection(FlightRadarClient::build_query_params(&rejected)), "GSpeed: 5001");
}

#[test]
fn gspeed_scalar_boundary() {
    let accepted =
        FullLiveFlightQuery { gspeed: Some(ApiRangeEnum::U32(5000)), ..FullLiveFlightQuery::default() };
    assert_eq!(FlightRadarClient::build_query_params(&accepted).unwrap(), "&gspeed=5000");
    let rejected =
        FullLiveFlightQuery { gspeed: Some(ApiRangeEnum::U32(5001)), ..FullLiveFlightQuery::default() };
    assert_eq!(rejection(FlightRadarClient::build_query_params(&rejected)), "GSpeed: 5001");
}

#[test]
fn altitude_range_is_written_as_min_dash_max() {
    let query = FullLiveFlightQuery {
        altitude_ranges: Some(vec![ApiRange { min: 2222, max: 3333 }]),
        ..FullLiveFlightQuery::default()
    };
    assert_eq!(
        FlightRadarClient::build_query_params(&query).unwrap(),
        "&altitude_ranges=2222-3333"
    );
    let unordered = FullLiveFlightQuery {
        altitude_ranges: Some(vec![ApiRange { min: 9, max: 0 }, ApiRange { min: 0, max: 4294967295 }]),
        ..FullLiveFlightQuery::default()
    };
    assert_eq!(
        FlightRadarClient::build_query_params(&unordered).unwrap(),
        "&altitude_ranges=9-0,0-4294967295"
    );
}

#[test]
fn bounds_are_written_north_south_west_east() {
    let query = FullLiveFlightQuery { bounds: Some(bounds_in()), ..FullLiveFlightQuery::default() };
    assert_eq!(
        FlightRadarClient::build_query_params(&query).unwrap(),
        "?bounds=42.473,37.331,-10.014,-4.115"
    );
    let upside_down = FullLiveFlightQuery {
        bounds: Some(Bounds {
            north: 1.5f64.to_string(),
            south: 2.5f64.to_string(),
            west: 0f64.to_string(),
            east: (-1f64).to_string(),
        }),
        ..FullLiveFlightQuery::default()
    };
    assert_eq!(
        FlightRadarClient::build_query_params(&upside_down).unwrap(),
        "?bounds=1.5,2.5,0,-1"
    );
}

#[test]
fn bounds_edges_must_be_numbers() {
    let edges = |north: &str, south: &str, west: &str, east: &str| FullLiveFlightQuery {
        bounds: Some(Bounds {
            north: north.to_string(),
            south: south.to_string(),
            west: west.to_string(),
            east: east.to_string(),
        }),
        ..FullLiveFlightQuery::default()
    };
    let special = edges(
        &f64::NAN.to_string(),
        &f64::INFINITY.to_string(),
        &f64::NEG_INFINITY.to_string(),
        &(-0.0f64).to_string(),
    );
    assert_eq!(
        FlightRadarClient::build_query_params(&special).unwrap(),
        "?bounds=NaN,inf,-inf,-0"
    );
    let wide = edges(&1e21f64.to_string(), &1e-7f64.to_string(), &f64::MAX.to_string(), "7");
    assert!(FlightRadarClient::build_query_params(&wide).is_ok());
    for bad in ["", "-", ".5", "5.", "1.2.3", "1e5", "+1", "--1", "1&limit=2", "1,2", " 1"] {
        let query = edges("1", bad, "2", "3");
        assert_eq!(
            rejection(FlightRadarClient::build_query_params(&query)),
            format!("Bounds: 1,{},2,3", bad)
        );
    }
    let client = setup_client();
    assert_eq!(
        parameter_text(client.get_live_flight(Some(&edges("north", "1", "2", "3")))),
        "Bounds: north,1,2,3"
    );
}

#[test]
fn first_rejection_wins() {
    let query = FullLiveFlightQuery {
        flights: Some(strings(&["DL4204", "a!", "b?"])),
        callsigns: Some(strings(&["ab"])),
        squawks: Some(vec![9999]),
        ..FullLiveFlightQuery::default()
    };
    assert_eq!(rejection(FlightRadarClient::build_query_params(&query)), "Flight #: a!");
    let query = FullLiveFlightQuery {
        flights: Some(strings(&["DL4204"])),
        callsigns: Some(strings(&["ab"])),
        squawks: Some(vec![9999]),
        ..FullLiveFlightQuery::default()
    };
    assert_eq!(rejection(FlightRadarClient::build_query_params(&query)), "Callsign: ab");
}

#[test]
fn aircraft_without_wildcard_is_left_out() {
    let query = FullLiveFlightQuery {
        aircraft: Some(strings(&["B38M", "A32*", "*33"])),
        ..FullLiveFlightQuery::default()
    };
    assert_eq!(FlightRadarClient::build_query_params(&query).unwrap(), "&aircraft=A32*,*33");
    let none_left =
        FullLiveFlightQuery { aircraft: Some(strings(&["B38M"])), ..FullLiveFlightQuery::default() };
    assert_eq!(FlightRadarClient::build_query_params(&none_left).unwrap(), "");
}

#[test]
fn aircraft_with_two_wildcards_is_rejected() {
    let query =
        FullLiveFlightQuery { aircraft: Some(strings(&["A*2*"])), ..FullLiveFlightQuery::default() };
    assert_eq!(rejection(FlightRadarClient::build_query_params(&query)), "Aircraft: A*2*");
    let query =
        FullLiveFlightQuery { aircraft: Some(strings(&["A-32"])), ..FullLiveFlightQuery::default() };
    assert_eq!(rejection(FlightRadarClient::build_query_params(&query)), "Aircraft: A-32");
}

#[test]
fn empty_query_is_not_queryable() {
    let query = FullLiveFlightQuery::default();
    assert!(!FlightRadarClient::check_live_parameters(&query));
    assert!(!FlightRadarClient::check_historic_parameters(&query));
}

#[test]
fn airspaces_alone_are_live_only() {
    let query = FullLiveFlightQuery {
        airspaces: Some(strings(&["ESAA"])),
        ..FullLiveFlightQuery::default()
    };
    assert!(FlightRadarClient::check_live_parameters(&query));
    assert!(!FlightRadarClient::check_historic_parameters(&query));
}

#[test]
fn limit_alone_is_not_queryable() {
    let query = FullLiveFlightQuery { limit: Some(10), ..FullLiveFlightQuery::default() };
    assert!(!FlightRadarClient::check_live_parameters(&query));
    assert!(!FlightRadarClient::check_historic_parameters(&query));
}

#[test]
fn every_other_dimension_is_queryable() {
    let d = FullLiveFlightQuery::default;
    let queries = vec![
        FullLiveFlightQuery { bounds: Some(bounds_in()), ..d() },
        FullLiveFlightQuery { flights: Some(Vec::new()), ..d() },
        FullLiveFlightQuery { callsigns: Some(Vec::new()), ..d() },
        FullLiveFlightQuery { registrations: Some(Vec::new()), ..d() },
        FullLiveFlightQuery { painted_as: Some(Vec::new()), ..d() },
        FullLiveFlightQuery { operating_as: Some(Vec::new()), ..d() },
        FullLiveFlightQuery { airports: Some(Vec::new()), ..d() },
        FullLiveFlightQuery { routes: Some(Vec::new()), ..d() },
        FullLiveFlightQuery { aircraft: Some(Vec::new()), ..d() },
        FullLiveFlightQuery { altitude_ranges: Some(Vec::new()), ..d() },
        FullLiveFlightQuery { squawks: Some(Vec::new()), ..d() },
        FullLiveFlightQuery { categories: Some(Vec::new()), ..d() },
        FullLiveFlightQuery { data_sources: Some(Vec::new()), ..d() },
        FullLiveFlightQuery { gspeed: Some(ApiRangeEnum::U32(1)), ..d() },
    ];
    for query in &queries {
        assert!(FlightRadarClient::check_live_parameters(query));
        assert!(FlightRadarClient::check_historic_parameters(query));
    }
}

#[test]
fn new_client_targets_production() {
    let client = FlightRadarClient::new("key".to_string());
    assert_eq!(client.base_url(), "https://fr24api.flightradar24.com/api/");
    assert_eq!(client.api_key(), "key");
    let client = setup_client();
    assert_eq!(client.base_url(), SANDBOX);
    assert_eq!(client.api_key(), "sandbox-key");
}

#[test]
fn every_request_carries_version_and_token() {
    let client = setup_client();
    let request = client.query_endpoint("https://example.invalid/x".to_string());
    assert_eq!(request.url, "https://example.invalid/x");
    assert_eq!(request.header_name, "Accept-Version");
    assert_eq!(request.header_value, "v1");
    assert_eq!(request.bearer_token, "sandbox-key");
    assert_eq!(request.expects, ResponseShape::Text);
}

#[test]
fn every_endpoint_names_its_record() {
    let client = setup_client();
    let query = full_query();
    assert_eq!(client.get_airline_by_icao("AAA").expects, ResponseShape::Airline);
    assert_eq!(client.get_airport_by_code("MCO").expects, ResponseShape::Airport);
    assert_eq!(client.get_airport_lite_by_code("MCO").expects, ResponseShape::AirportLite);
    assert_eq!(
        client.get_live_flight(Some(&query)).unwrap().expects,
        ResponseShape::FullFlightPositions
    );
    assert_eq!(
        client.get_live_flight_light(Some(&query)).unwrap().expects,
        ResponseShape::LightFlightPositions
    );
    assert_eq!(
        client.get_historic_flight(&1739401921, Some(&query)).unwrap().expects,
        ResponseShape::FullFlightPositions
    );
    assert_eq!(
        client.get_historic_flight_light(&1739401921, Some(&query)).unwrap().expects,
        ResponseShape::LightFlightPositions
    );
    assert_eq!(
        client.get_flight_tracks_by_id("390163bf").unwrap().expects,
        ResponseShape::FlightTracks
    );
    assert_eq!(client.get_api_usage("1y").unwrap().expects, ResponseShape::ApiUsage);
}

#[test]
fn static_endpoints() {
    let client = setup_client();
    let airline = client.get_airline_by_icao("AAA");
    assert_eq!(airline.url, format!("{}static/airlines/AAA/light", SANDBOX));
    assert_eq!(airline.bearer_token, "sandbox-key");
    let airport = client.get_airport_by_code("MCO");
    assert_eq!(airport.url, format!("{}static/airports/MCO/full", SANDBOX));
    let lite = client.get_airport_lite_by_code("MCO");
    assert_eq!(lite.url, format!("{}static/airports/MCO/light", SANDBOX));
}

#[test]
fn live_endpoints() {
    let client = setup_client();
    let query = full_query();
    let full = client.get_live_flight(Some(&query)).unwrap();
    assert_eq!(full.url, format!("{}live/flight-positions/full{}", SANDBOX, FULL_QUERY_TEXT));
    assert_eq!(full.header_name, "Accept-Version");
    assert_eq!(full.header_value, "v1");
    assert_eq!(full.bearer_token, "sandbox-key");
    let light = client.get_live_flight_light(Some(&query)).unwrap();
    assert_eq!(light.url, format!("{}live/flight-positions/light{}", SANDBOX, FULL_QUERY_TEXT));
    let no_bounds = FullLiveFlightQuery {
        airspaces: Some(strings(&["ESAA"])),
        ..FullLiveFlightQuery::default()
    };
    let request = client.get_live_flight(Some(&no_bounds)).unwrap();
    assert_eq!(request.url, format!("{}live/flight-positions/full&airspaces=ESAA", SANDBOX));
}

#[test]
fn live_endpoints_need_a_populated_dimension() {
    let client = setup_client();
    let empty = FullLiveFlightQuery::default();
    let missing = "Missing One Of Required Parameters";
    assert_eq!(parameter_text(client.get_live_flight(Some(&empty))), missing);
    assert_eq!(parameter_text(client.get_live_flight(None)), missing);
    assert_eq!(parameter_text(client.get_live_flight_light(Some(&empty))), missing);
    assert_eq!(parameter_text(client.get_live_flight_light(None)), missing);
    let limit_only = FullLiveFlightQuery { limit: Some(3), ..FullLiveFlightQuery::default() };
    assert_eq!(parameter_text(client.get_live_flight(Some(&limit_only))), missing);
}

#[test]
fn live_endpoints_reject_invalid_candidates() {
    let client = setup_client();
    let query = FullLiveFlightQuery {
        callsigns: Some(strings(&["w1ssstt", "ab"])),
        ..FullLiveFlightQuery::default()
    };
    assert_eq!(parameter_text(client.get_live_flight(Some(&query))), "Callsign: ab");
    assert_eq!(parameter_text(client.get_live_flight_light(Some(&query))), "Callsign: ab");
}

#[test]
fn historic_endpoints() {
    let client = setup_client();
    let query = full_query();
    let full = client.get_historic_flight(&1739401921, Some(&query)).unwrap();
    assert_eq!(
        full.url,
        format!(
            "{}historic/flight-positions/full?timestamp=1739401921&{}",
            SANDBOX,
            &FULL_QUERY_TEXT[1..]
        )
    );
    let light = client.get_historic_flight_light(&1739401921, Some(&query)).unwrap();
    assert_eq!(
        light.url,
        format!(
            "{}historic/flight-positions/light?timestamp=1739401921&{}",
            SANDBOX,
            &FULL_QUERY_TEXT[1..]
        )
    );
    assert_eq!(light.bearer_token, "sandbox-key");
    let flights_only =
        FullLiveFlightQuery { flights: Some(strings(&["DL4204"])), ..FullLiveFlightQuery::default() };
    let request = client.get_historic_flight(&1462924800, Some(&flights_only)).unwrap();
    assert_eq!(
        request.url,
        format!("{}historic/flight-positions/full?timestamp=1462924800&flights=DL4204", SANDBOX)
    );
    let nothing_to_send =
        FullLiveFlightQuery { flights: Some(Vec::new()), ..FullLiveFlightQuery::default() };
    let request = client.get_historic_flight(&1462924800, Some(&nothing_to_send)).unwrap();
    assert_eq!(
        request.url,
        format!("{}historic/flight-positions/full?timestamp=1462924800&", SANDBOX)
    );
}

#[test]
fn historic_timestamp_boundary() {
    let client = setup_client();
    let query = full_query();
    assert_eq!(
        parameter_text(client.get_historic_flight(&1462924799, Some(&query))),
        "Invalid Timestamp: 1462924799"
    );
    assert_eq!(
        parameter_text(client.get_historic_flight_light(&1462924799, Some(&query))),
        "Invalid Timestamp: 1462924799"
    );
    assert_eq!(
        parameter_text(client.get_historic_flight(&0, None)),
        "Invalid Timestamp: 0"
    );
    assert!(client.get_historic_flight(&1462924800, Some(&query)).is_ok());
    // the timestamp passes; the policy check is next
    let empty = FullLiveFlightQuery::default();
    assert_eq!(
        parameter_text(client.get_historic_flight(&1462924800, Some(&empty))),
        "Missing One Of Required Parameters"
    );
    assert_eq!(
        parameter_text(client.get_historic_flight_light(&1462924800, None)),
        "Missing One Of Required Parameters"
    );
}

#[test]
fn historic_endpoints_do_not_count_airspaces() {
    let client = setup_client();
    let query = FullLiveFlightQuery {
        airspaces: Some(strings(&["ESAA"])),
        ..FullLiveFlightQuery::default()
    };
    assert_eq!(
        parameter_text(client.get_historic_flight(&1739401921, Some(&query))),
        "Missing One Of Required Parameters"
    );
    assert_eq!(
        parameter_text(client.get_historic_flight_light(&1739401921, Some(&query))),
        "Missing One Of Required Parameters"
    );
}

#[test]
fn historic_endpoints_reject_invalid_candidates() {
    let client = setup_client();
    let query =
        FullLiveFlightQuery { squawks: Some(vec![8000]), ..FullLiveFlightQuery::default() };
    assert_eq!(
        parameter_text(client.get_historic_flight(&1739401921, Some(&query))),
        "Squawk: 8000"
    );
}

#[test]
fn flight_id_must_be_hexadecimal() {
    let client = setup_client();
    for id in ["390163bf", "0", "FFFFFFFFFFFFFFFF", "+1f", "00000000000000000001", "aBcDeF"] {
        let request = client.get_flight_tracks_by_id(id).unwrap();
        assert_eq!(request.url, format!("{}flight-tracks?flight_id={}", SANDBOX, id));
        assert!(u64::from_str_radix(id, 16).is_ok());
    }
    for id in ["", "+", "-1", "xyz", "12g", "10000000000000000", "1 2", "0x1f", "++1", "1+"] {
        assert_eq!(
            parameter_text(client.get_flight_tracks_by_id(id)),
            format!("Flight ID Not Hexadecimal: {}", id)
        );
        assert!(u64::from_str_radix(id, 16).is_err());
    }
}

#[test]
fn usage_period_must_be_known() {
    let client = setup_client();
    for period in ["24h", "7d", "30d", "1y"] {
        let request = client.get_api_usage(period).unwrap();
        assert_eq!(request.url, format!("{}usage?period={}", SANDBOX, period));
    }
    for period in ["", "1d", "24H", "1y ", "2y"] {
        assert_eq!(
            parameter_text(client.get_api_usage(period)),
            format!("Period: {}. Should be: 24h|7d|30d|1y", period)
        );
    }
}

#[test]
fn error_messages() {
    assert_eq!(FlightRadarError::Parsing("p".to_string()).message(), "Parsing error: p");
    assert_eq!(FlightRadarError::General("g".to_string()).message(), "Error: g");
    assert_eq!(FlightRadarError::Parameter("x".to_string()).message(), "Invalid Parameter: x");
    assert_eq!(
        FlightRadarError::undecodable("expected value", "<html>").message(),
        "Parsing error: expected value\nResponse: <html>"
    );
    assert_eq!(
        FlightRadarError::parameter("Squawk: ", "8000").message(),
        "Invalid Parameter: Squawk: 8000"
    );
    assert!(FlightRadarError::General("g".to_string()).source().is_none());
    assert!(FlightRadarError::Parameter("g".to_string()).source().is_none());
}

#[test]
fn transport_error_is_wrapped() {
    let failure = reqwest::blocking::Client::new().get("not a url").send().unwrap_err();
    let detail = failure.to_string();
    let wrapped = FlightRadarError::from(failure);
    assert!(matches!(wrapped, FlightRadarError::Http(_)));
    assert!(wrapped.source().is_some());
    assert_eq!(wrapped.message(), format!("HTTP error: {}", detail));
}

#[test]
fn default_records_are_empty() {
    assert_eq!(Airline::default().icao, "");
    assert!(Airline::default().iata.is_none());
    assert_eq!(AirportLite::default().icao, "");
    let airport = Airport::default();
    assert_eq!(airport.lat, 0f64.to_string());
    assert_eq!(airport.lon, 0f64.to_string());
    assert_eq!(airport.elevation, 0);
    assert!(airport.state.is_none());
    assert_eq!(Country::default().code, "");
    assert_eq!(Timezone::default().offset, 0);
    assert!(ApiUsageResponse::default().data.is_empty());
    assert_eq!(ApiEndpointUsage::default().request_count, 0);
    assert!(FullLiveFlightResponse::default().data.is_empty());
    assert!(LightLiveFlightResponse::default().data.is_empty());
    assert_eq!(FullLiveFlightData::default().lat, "0");
    assert_eq!(LightLiveFlightData::default().vspeed, 0);
    assert!(Flight::default().tracks.is_empty());
    assert_eq!(Track::default().lon, "0");
    let range = ApiRange::default();
    assert_eq!((range.min, range.max), (0, 0));
    let bounds = Bounds::default();
    assert_eq!(bounds.north, 0f64.to_string());
    assert_eq!(bounds.east, "0");
    let query = FullLiveFlightQuery { bounds: Some(bounds), ..FullLiveFlightQuery::default() };
    assert_eq!(FlightRadarClient::build_query_params(&query).unwrap(), "?bounds=0,0,0,0");
}
