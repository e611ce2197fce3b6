use taxi_json::record::{transcode, transcode_lines, DecodeError, FieldValue, TripRecord};
use taxi_json::schema::{field_kind, field_name, FieldKind, FIELD_COUNT};
use taxi_json::timestamp::{deserialize, reformat_timestamp, serialize, Timestamp};

const SAMPLE: &str = "3389224,2,2014-03-26 00:26:15,2014-03-26 00:28:38,N,1,-73.950431823730469,40.792251586914063,-73.938949584960937,40.794425964355469,1,0.84,4.5,0.5,0.5,1,0,,,6.5,1,1,75,74,green,0.00,0.0,0.0,36,24,11.86,1267,168,1,Manhattan,016800,1016800,E,MN33,East Harlem South,3804,1828,180,1,Manhattan,018000,1018000,E,MN34,East Harlem North,3804";

fn split(line: &str) -> Vec<String> {
    line.split(',').map(|f| f.to_string()).collect()
}

fn float_readings(fields: &[String]) -> Vec<Option<String>> {
    fields
        .iter()
        .map(|f| f.parse::<f64>().ok().map(|x| serde_json::to_string(&x).unwrap()))
        .collect()
}

fn run(fields: &Vec<String>) -> Result<String, DecodeError> {
    transcode(fields, &float_readings(fields))
}

fn with_field(i: usize, text: &str) -> Vec<String> {
    let mut fields = split(SAMPLE);
    fields[i] = text.to_string();
    fields
}

#[test]
fn end_to_end_sample_line() {
    let json = run(&split(SAMPLE)).unwrap();
    assert!(json.starts_with("{\"id\":\"3389224\",\"vendor_id\":\"2\","));
    assert!(json.contains("\"pickup_datetime\":\"2014-03-26 00:26:15\""));
    assert!(json.contains("\"dropoff_datetime\":\"2014-03-26 00:28:38\""));
    assert!(json.contains("\"ehail_fee\":null,\"improvement_surcharge\":null,"));
    assert!(json.contains("\"trip_distance\":0.84,"));
    assert!(json.contains("\"tip_amount\":1.0,"));
    assert!(json.contains("\"passenger_count\":1,"));
    assert!(json.contains("\"payment_type\":1,\"trip_type\":1,"));
    assert!(json.contains("\"pickup_ct2010\":\"016800\""));
    assert!(json.contains("\"max_temp\":36.0,"));
    assert!(json.ends_with("\"dropoff_ntaname\":\"East Harlem North\",\"dropoff_puma\":\"3804\"}"));
    let parsed: serde_json::Value = serde_json::from_str(&json).unwrap();
    assert_eq!(parsed["trip_distance"].as_f64(), Some(0.84));
    assert_eq!(parsed["pickup_longitude"].as_f64(), Some(-73.950431823730469));
}

#[test]
fn keys_follow_declaration_order() {
    let json = run(&split(SAMPLE)).unwrap();
    let mut at = 0;
    for i in 0..FIELD_COUNT {
        let key = format!("\"{}\":", field_name(i));
        let found = json[at..].find(&key).expect("key present");
        at += found + key.len();
    }
    let parsed: serde_json::Value = serde_json::from_str(&json).unwrap();
    assert_eq!(parsed.as_object().unwrap().len(), FIELD_COUNT);
}

#[test]
fn timestamp_round_trip() {
    let t = deserialize("2014-03-26 00:26:15").unwrap();
    assert_eq!(
        t,
        Timestamp { year: 2014, month: 3, day: 26, hour: 0, minute: 26, second: 15, nanosecond: 0 }
    );
    assert_eq!(serialize(t), "2014-03-26 00:26:15");
    assert_eq!(reformat_timestamp("2014-03-26 00:26:15"), Some("2014-03-26 00:26:15".to_string()));
}

#[test]
fn leap_second_round_trip() {
    let t = deserialize("2016-12-31 23:59:60").unwrap();
    assert_eq!(t.second, 59);
    assert_eq!(t.nanosecond, 1_000_000_000);
    assert_eq!(serialize(t), "2016-12-31 23:59:60");
}

#[test]
fn small_year_is_padded() {
    let t = Timestamp { year: 8, month: 2, day: 29, hour: 1, minute: 2, second: 3, nanosecond: 0 };
    assert_eq!(serialize(t), "0008-02-29 01:02:03");
}

#[test]
fn bad_timestamps_fail() {
    assert_eq!(deserialize("2014-13-26 00:26:15"), None);
    assert_eq!(deserialize("2014-02-30 00:26:15"), None);
    assert_eq!(deserialize("2014-03-26T00:26:15"), None);
    assert_eq!(run(&with_field(2, "2014-13-26 00:26:15")), Err(DecodeError::Format { field: 2 }));
    assert_eq!(run(&with_field(3, "")), Err(DecodeError::Format { field: 3 }));
}

#[test]
fn empty_optional_is_null_and_empty_required_fails() {
    let json = run(&split(SAMPLE)).unwrap();
    assert!(json.contains("\"ehail_fee\":null"));
    assert_eq!(run(&with_field(11, "")), Err(DecodeError::Format { field: 11 }));
    assert_eq!(run(&with_field(10, "")), Err(DecodeError::Format { field: 10 }));
    let json = run(&with_field(21, "")).unwrap();
    assert!(json.contains("\"trip_type\":null,"));
    let json = run(&with_field(17, "0")).unwrap();
    assert!(json.contains("\"ehail_fee\":0.0,"));
}

#[test]
fn wrong_field_count_fails() {
    let mut short = split(SAMPLE);
    short.truncate(30);
    assert_eq!(run(&short), Err(DecodeError::Arity { found: 30 }));
    let mut long = split(SAMPLE);
    long.push("x".to_string());
    assert_eq!(run(&long), Err(DecodeError::Arity { found: FIELD_COUNT + 1 }));
    let mut thirty_two = split(SAMPLE);
    thirty_two.truncate(32);
    assert_eq!(run(&thirty_two), Err(DecodeError::Arity { found: 32 }));
    assert_eq!(run(&Vec::new()), Err(DecodeError::Arity { found: 0 }));
}

#[test]
fn non_numeric_required_float_fails() {
    assert_eq!(run(&with_field(11, "abc")), Err(DecodeError::Format { field: 11 }));
    assert_eq!(run(&with_field(17, "abc")), Err(DecodeError::Format { field: 17 }));
}

#[test]
fn first_bad_field_is_reported() {
    let mut fields = with_field(12, "x");
    fields[25] = "y".to_string();
    assert_eq!(run(&fields), Err(DecodeError::Format { field: 12 }));
}

#[test]
fn integers_are_read_and_written() {
    let json = run(&with_field(10, "-3")).unwrap();
    assert!(json.contains("\"passenger_count\":-3,"));
    let json = run(&with_field(10, "0x1f")).unwrap();
    assert!(json.contains("\"passenger_count\":31,"));
    let json = run(&with_field(10, "+0042")).unwrap();
    assert!(json.contains("\"passenger_count\":42,"));
    assert_eq!(run(&with_field(10, "1.5")), Err(DecodeError::Format { field: 10 }));
    assert_eq!(run(&with_field(10, "9223372036854775808")), Err(DecodeError::Format { field: 10 }));
    let json = run(&with_field(20, "2147483647")).unwrap();
    assert!(json.contains("\"payment_type\":2147483647,"));
    assert_eq!(run(&with_field(20, "2147483648")), Err(DecodeError::Format { field: 20 }));
    assert_eq!(run(&with_field(21, "-2147483649")), Err(DecodeError::Format { field: 21 }));
}

#[test]
fn text_is_kept_verbatim_and_escaped() {
    let json = run(&with_field(0, "a\"b\\c")).unwrap();
    assert!(json.starts_with("{\"id\":\"a\\\"b\\\\c\","));
    let json = run(&with_field(4, "")).unwrap();
    assert!(json.contains("\"store_and_fwd_flag\":\"\","));
}

#[test]
fn decode_gives_typed_values() {
    let fields = split(SAMPLE);
    let rec = TripRecord::decode(&fields, &float_readings(&fields)).unwrap();
    assert_eq!(rec.values.len(), FIELD_COUNT);
    assert_eq!(rec.values[0], FieldValue::Text("3389224".to_string()));
    assert_eq!(rec.values[10], FieldValue::Integer(Some(1)));
    assert_eq!(rec.values[11], FieldValue::Number(Some("0.84".to_string())));
    assert_eq!(rec.values[17], FieldValue::Number(None));
    assert_eq!(rec.to_json(), run(&fields).unwrap());
    assert_eq!(field_kind(2), FieldKind::Timestamp);
    assert_eq!(field_kind(21), FieldKind::OptionalInt32);
}

#[test]
fn two_lines_keep_their_order() {
    let first = split(SAMPLE);
    let second = with_field(0, "42");
    let lines = vec![first.clone(), second.clone()];
    let floats = vec![float_readings(&first), float_readings(&second)];
    let (out, err) = transcode_lines(&lines, &floats);
    assert_eq!(err, None);
    assert_eq!(out.len(), 2);
    assert_eq!(out[0], run(&first).unwrap());
    assert_eq!(out[1], run(&second).unwrap());
    assert!(out[1].starts_with("{\"id\":\"42\","));
}

#[test]
fn batch_stops_at_first_bad_line() {
    let good = split(SAMPLE);
    let bad = with_field(11, "abc");
    let lines = vec![good.clone(), bad.clone(), good.clone()];
    let floats = vec![float_readings(&good), float_readings(&bad), float_readings(&good)];
    let (out, err) = transcode_lines(&lines, &floats);
    assert_eq!(out.len(), 1);
    assert_eq!(err, Some((1, DecodeError::Format { field: 11 })));
}
