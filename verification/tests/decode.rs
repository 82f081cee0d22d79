use chrono::TimeZone;
use chrono::Utc;
use locationsharing::Error;
use locationsharing::JsonValue;
use locationsharing::Location;
use locationsharing::Person;
use locationsharing::decode_envelope;
use locationsharing::fetch::location_url;
use locationsharing::fetch::query_params;

const PICTURE_URL: &str = "https://lh3.googleusercontent.com/-XdUIqdMkCWA/AAAAAAAAAAI/AAAAAAAAAAA/4252rscbv5MWrETbApjU_W4ck_MpC5JqwIhkKAUQQ____________ARibr4X4______8B/w80-h80/photo.jpg";
const ADDRESS: &str = "380 W 5th Ave, Vancouver, BC V5Y 1J5, Canada";
const ID: &str = "3Jef8UhKEnoX92I68LSNuaTKiCTZCpzQav";

fn num_f64(x: f64) -> JsonValue {
    JsonValue::Number(serde_json::Number::from_f64(x).unwrap())
}

fn num_u64(x: u64) -> JsonValue {
    JsonValue::Number(serde_json::Number::from(x))
}

fn string(s: &str) -> JsonValue {
    JsonValue::String(s.to_string())
}

/// The sharer record of the worked example, as the endpoint lays it out.
fn example_record() -> JsonValue {
    JsonValue::Array(vec![
        JsonValue::Null,
        JsonValue::Array(vec![
            JsonValue::Null,
            JsonValue::Array(vec![num_u64(0), num_f64(-123.1123589), num_f64(49.2664886)]),
            num_u64(1553802885123),
            JsonValue::Null,
            string(ADDRESS),
        ]),
        JsonValue::Null,
        JsonValue::Null,
        JsonValue::Null,
        JsonValue::Null,
        JsonValue::Array(vec![
            string(ID),
            string(PICTURE_URL),
            string("Twilight Sparkle"),
            string("Twilight"),
        ]),
        JsonValue::Null,
        JsonValue::Null,
        JsonValue::Null,
        JsonValue::Null,
        JsonValue::Null,
        JsonValue::Null,
        JsonValue::Array(vec![JsonValue::Null, num_u64(89)]),
    ])
}

/// The same record as literal JSON text.
fn example_record_json() -> String {
    format!(
        "[null,[null,[0,-123.1123589,49.2664886],1553802885123,null,\"{}\"],null,null,null,null,[\"{}\",\"{}\",\"Twilight Sparkle\",\"Twilight\"],null,null,null,null,null,null,[null,89]]",
        ADDRESS, ID, PICTURE_URL
    )
}

fn expected_location() -> Location {
    Location {
        person: Person {
            id: ID.to_string(),
            picture_url: Some(PICTURE_URL.to_string()),
            full_name: "Twilight Sparkle".to_string(),
            nickname: Some("Twilight".to_string()),
        },
        latitude: serde_json::Number::from_f64(49.2664886).unwrap(),
        longitude: serde_json::Number::from_f64(-123.1123589).unwrap(),
        address: Some(ADDRESS.to_string()),
        timestamp: Some(Utc.with_ymd_and_hms(2019, 3, 28, 19, 54, 45).unwrap().timestamp() as u64),
        battery: Some(89),
    }
}

/// A whole response body around the given record texts: 4 filler bytes,
/// then `[[ <records> ]]`.
fn body_around(records: &[&str]) -> Vec<u8> {
    let mut s = String::from(")]}'");
    s.push_str("[[");
    s.push_str(&records.join(","));
    s.push_str("]]");
    s.into_bytes()
}

#[test]
fn lib_decode() {
    let body = body_around(&[&example_record_json()]);
    let locations = decode_envelope(&body).expect("failed to unserialize array");
    assert_eq!(vec![expected_location()], locations);
}

#[test]
fn location_decode() {
    let v = example_record();
    let location = Location::from_array(&v).expect("failed to unserialize array");
    assert_eq!(expected_location(), location);
}

fn set(record: &mut JsonValue, i: usize, j: usize, v: JsonValue) {
    match record {
        JsonValue::Array(outer) => match &mut outer[i] {
            JsonValue::Array(inner) => inner[j] = v,
            _ => panic!("not an array at [{}]", i),
        },
        _ => panic!("not an array"),
    }
}

#[test]
fn null_picture_url_is_absent() {
    let mut v = example_record();
    set(&mut v, 6, 1, JsonValue::Null);
    let location = Location::from_array(&v).unwrap();
    assert_eq!(None, location.person.picture_url);
    assert_eq!(Some("Twilight".to_string()), location.person.nickname);
}

#[test]
fn null_nickname_is_absent() {
    let mut v = example_record();
    set(&mut v, 6, 3, JsonValue::Null);
    let location = Location::from_array(&v).unwrap();
    assert_eq!(None, location.person.nickname);
}

#[test]
fn null_address_is_absent() {
    let mut v = example_record();
    set(&mut v, 1, 4, JsonValue::Null);
    let location = Location::from_array(&v).unwrap();
    assert_eq!(None, location.address);
}

#[test]
fn null_battery_slot_is_absent() {
    let mut v = example_record();
    match &mut v {
        JsonValue::Array(outer) => outer[13] = JsonValue::Null,
        _ => unreachable!(),
    }
    let location = Location::from_array(&v).unwrap();
    assert_eq!(None, location.battery);
}

#[test]
fn short_record_without_battery_slot_decodes() {
    let mut v = example_record();
    match &mut v {
        JsonValue::Array(outer) => outer.truncate(13),
        _ => unreachable!(),
    }
    let location = Location::from_array(&v).unwrap();
    assert_eq!(None, location.battery);
    assert_eq!(Some(1553802885), location.timestamp);
}

#[test]
fn battery_is_truncated_into_a_byte() {
    let mut v = example_record();
    set(&mut v, 13, 1, num_u64(300));
    let location = Location::from_array(&v).unwrap();
    assert_eq!(Some(44), location.battery);
}

#[test]
fn fractional_battery_is_absent() {
    let mut v = example_record();
    set(&mut v, 13, 1, num_f64(89.5));
    let location = Location::from_array(&v).unwrap();
    assert_eq!(None, location.battery);
}

#[test]
fn non_string_id_is_an_error() {
    let mut v = example_record();
    set(&mut v, 6, 0, JsonValue::Null);
    match Location::from_array(&v) {
        Err(Error::Malformed(m)) => assert_eq!("null was not a string", m),
        other => panic!("expected a decode error, got {:?}", other),
    }
}

#[test]
fn empty_id_is_an_error() {
    let mut v = example_record();
    set(&mut v, 6, 0, string(""));
    match Location::from_array(&v) {
        Err(Error::Malformed(m)) => assert_eq!("\"\" was an empty string", m),
        other => panic!("expected a decode error, got {:?}", other),
    }
}

#[test]
fn empty_full_name_is_an_error() {
    let mut v = example_record();
    set(&mut v, 6, 2, string(""));
    match Location::from_array(&v) {
        Err(Error::Malformed(m)) => assert_eq!("\"\" was an empty string", m),
        other => panic!("expected a decode error, got {:?}", other),
    }
}

#[test]
fn empty_optional_strings_stay_present() {
    let mut v = example_record();
    set(&mut v, 6, 3, string(""));
    set(&mut v, 1, 4, string(""));
    let location = Location::from_array(&v).unwrap();
    assert_eq!(Some(String::new()), location.person.nickname);
    assert_eq!(Some(String::new()), location.address);
}

#[test]
fn missing_id_names_its_path() {
    let mut v = example_record();
    match &mut v {
        JsonValue::Array(outer) => outer[6] = JsonValue::Array(vec![]),
        _ => unreachable!(),
    }
    match Location::from_array(&v) {
        Err(Error::Malformed(m)) => assert!(m.ends_with(" missing [6][0]"), "message was {:?}", m),
        other => panic!("expected a decode error, got {:?}", other),
    }
}

#[test]
fn short_record_misses_the_person_array() {
    let v = JsonValue::Array(vec![JsonValue::Null, num_u64(5)]);
    match Location::from_array(&v) {
        Err(Error::Malformed(m)) => assert_eq!("Vector [null,5] missing [6]", m),
        other => panic!("expected a decode error, got {:?}", other),
    }
}

#[test]
fn non_array_record_is_an_error() {
    match Location::from_array(&string("x")) {
        Err(Error::Malformed(m)) => assert_eq!("value should be an array", m),
        other => panic!("expected a decode error, got {:?}", other),
    }
}

#[test]
fn non_number_latitude_is_an_error() {
    let mut v = example_record();
    set(&mut v, 1, 1, JsonValue::Array(vec![num_u64(0), num_f64(-123.0), string("49")]));
    match Location::from_array(&v) {
        Err(Error::Malformed(m)) => assert_eq!("\"49\" was not a number", m),
        other => panic!("expected a decode error, got {:?}", other),
    }
}

#[test]
fn fractional_timestamp_is_an_error() {
    let mut v = example_record();
    set(&mut v, 1, 2, num_f64(1553802885123.5));
    match Location::from_array(&v) {
        Err(Error::Malformed(m)) => assert_eq!("Failed to parse datetime", m),
        other => panic!("expected a decode error, got {:?}", other),
    }
}

#[test]
fn envelope_unwraps_one_record() {
    let body = body_around(&[&example_record_json()]);
    let locations = decode_envelope(&body).unwrap();
    assert_eq!(1, locations.len());
    assert_eq!(expected_location(), locations[0]);
}

#[test]
fn envelope_with_non_array_first_element_is_an_error() {
    let body = b")]}'[5]".to_vec();
    match decode_envelope(&body) {
        Err(Error::Malformed(m)) => assert_eq!("Missing location array: [5]", m),
        other => panic!("expected a decode error, got {:?}", other),
    }
}

#[test]
fn envelope_that_is_not_an_array_is_an_error() {
    let body = b")]}'{\"a\": 1}".to_vec();
    match decode_envelope(&body) {
        Err(Error::Malformed(m)) => assert_eq!("Missing location array: {...}", m),
        other => panic!("expected a decode error, got {:?}", other),
    }
}

#[test]
fn body_shorter_than_the_prefix_is_an_error() {
    for body in [&b""[..], &b")]}"[..]] {
        match decode_envelope(body) {
            Err(Error::Malformed(m)) => {
                assert_eq!("response body is shorter than its 4-byte prefix", m)
            }
            other => panic!("expected a decode error, got {:?}", other),
        }
    }
}

#[test]
fn body_that_is_not_json_is_a_parse_error() {
    let body = b")]}'not json at all".to_vec();
    match decode_envelope(&body) {
        Err(Error::SerdeError(_)) => {}
        other => panic!("expected a parse error, got {:?}", other),
    }
}

#[test]
fn batch_decoding_is_all_or_nothing() {
    let body = body_around(&[&example_record_json(), "[null]"]);
    match decode_envelope(&body) {
        Err(Error::Malformed(m)) => {
            assert_eq!("Vector [null] missing [6]", m);
        }
        other => panic!("expected a decode error, got {:?}", other),
    }
}

#[test]
fn batch_keeps_the_order_of_the_records() {
    let mut second = example_record_json();
    second = second.replace("Twilight Sparkle", "Rainbow Dash");
    let body = body_around(&[&example_record_json(), &second]);
    let locations = decode_envelope(&body).unwrap();
    assert_eq!(2, locations.len());
    assert_eq!("Twilight Sparkle", locations[0].person.full_name);
    assert_eq!("Rainbow Dash", locations[1].person.full_name);
}

#[test]
fn empty_record_list_decodes_to_nothing() {
    let body = b")]}'[[]]".to_vec();
    let locations = decode_envelope(&body).unwrap();
    assert_eq!(0, locations.len());
}

#[test]
fn decoding_twice_gives_equal_results() {
    let body = body_around(&[&example_record_json()]);
    let first = decode_envelope(&body).unwrap();
    let second = decode_envelope(&body).unwrap();
    assert_eq!(first, second);

    let bad = b")]}'[5]".to_vec();
    let e1 = decode_envelope(&bad);
    let e2 = decode_envelope(&bad);
    match (e1, e2) {
        (Err(Error::Malformed(m1)), Err(Error::Malformed(m2))) => assert_eq!(m1, m2),
        other => panic!("expected two equal decode errors, got {:?}", other),
    }
}

#[test]
fn the_request_pieces_are_fixed() {
    assert_eq!("https://www.google.com/maps/preview/locationsharing/read", location_url());
    let params = query_params();
    assert_eq!(4, params.len());
    assert_eq!(("authuser", "0"), params[0]);
    assert_eq!(("hl", "en"), params[1]);
    assert_eq!(("gl", "en"), params[2]);
    assert_eq!("pb", params[3].0);
    assert!(params[3].1.starts_with("!1m7!8m6!1m3!1i14!"));
}
