use influxdb2::models::{DataPoint, WriteDataPoint};
use sensor_ingest::point::{uptime_as_integer, Field, FieldValue, Point, Tag, BUCKET, MEASUREMENT};
use sensor_ingest::reading::{Measurement, SensorData, SensorDataWithTimestamp, Timestamp};

fn measured(value: f32) -> Measurement {
    Measurement { bits: value.to_bits() }
}

fn extended_reading() -> SensorData {
    SensorData {
        name: "rpi-1".to_string(),
        rpi_temp: measured(40.2),
        temp: measured(21.5),
        pressure: measured(1013.2),
        humidity: measured(45.0),
        ip_address: "10.0.0.5".to_string(),
        uptime: 3600,
    }
}

fn line_protocol(point: &Point) -> String {
    let mut builder = DataPoint::builder(point.measurement.clone());
    for tag in &point.tags {
        builder = builder.tag(tag.key.clone(), tag.value.clone());
    }
    for field in &point.fields {
        builder = match field.value {
            FieldValue::Float(m) => builder.field(field.key.clone(), f32::from_bits(m.bits) as f64),
            FieldValue::Integer(n) => builder.field(field.key.clone(), n),
        };
    }
    let built = builder.build().expect("a point with fields");
    let mut line: Vec<u8> = Vec::new();
    built.write_data_point_to(&mut line).expect("writing to memory");
    String::from_utf8(line).expect("line protocol is text")
}

#[test]
fn fixed_names() {
    assert_eq!(MEASUREMENT, "rpi_sensors");
    assert_eq!(BUCKET, "sensors-bucket");
}

#[test]
fn uptime_below_the_sign_bit_keeps_its_value() {
    assert_eq!(uptime_as_integer(0), 0);
    assert_eq!(uptime_as_integer(3600), 3600);
    assert_eq!(uptime_as_integer(0x7fff_ffff_ffff_ffff), i64::MAX);
}

#[test]
fn uptime_from_the_sign_bit_on_wraps_to_negative() {
    assert_eq!(uptime_as_integer(0x8000_0000_0000_0000), i64::MIN);
    assert_eq!(uptime_as_integer(0x8000_0000_0000_0001), i64::MIN + 1);
    assert_eq!(uptime_as_integer(u64::MAX), -1);
    assert_eq!(uptime_as_integer(u64::MAX - 1), -2);
}

#[test]
fn uptime_coercion_is_the_cast_of_the_language() {
    for uptime in [0u64, 1, 3600, 1 << 32, (1 << 63) - 1, 1 << 63, (1 << 63) + 12345, u64::MAX] {
        assert_eq!(uptime_as_integer(uptime), uptime as i64);
    }
}

#[test]
fn stamp_keeps_every_field_and_adds_the_time() {
    let reading = extended_reading();
    let at = Timestamp { secs: 1_700_000_000, nanos: 123_456_789 };
    assert_eq!(
        reading.stamp(at),
        SensorDataWithTimestamp {
            name: "rpi-1".to_string(),
            rpi_temp: measured(40.2),
            temp: measured(21.5),
            pressure: measured(1013.2),
            humidity: measured(45.0),
            ip_address: "10.0.0.5".to_string(),
            uptime: 3600,
            timestamp: at,
        }
    );
    assert_eq!(reading, extended_reading());
}

#[test]
fn stamp_takes_the_time_it_is_given_whatever_the_reading_holds() {
    let at = Timestamp { secs: -5, nanos: 0 };
    let mut other = extended_reading();
    other.name = "1999-01-01T00:00:00Z".to_string();
    other.uptime = u64::MAX;
    assert_eq!(extended_reading().stamp(at).timestamp, at);
    assert_eq!(other.stamp(at).timestamp, at);
}

#[test]
fn point_of_the_extended_scenario() {
    let point = extended_reading().to_point();
    assert_eq!(
        point,
        Point {
            measurement: "rpi_sensors".to_string(),
            tags: vec![
                Tag { key: "name".to_string(), value: "rpi-1".to_string() },
                Tag { key: "ip_address".to_string(), value: "10.0.0.5".to_string() },
            ],
            fields: vec![
                Field { key: "rpi_temp".to_string(), value: FieldValue::Float(measured(40.2)) },
                Field { key: "temp".to_string(), value: FieldValue::Float(measured(21.5)) },
                Field { key: "pressure".to_string(), value: FieldValue::Float(measured(1013.2)) },
                Field { key: "humidity".to_string(), value: FieldValue::Float(measured(45.0)) },
                Field { key: "uptime".to_string(), value: FieldValue::Integer(3600) },
            ],
        }
    );
}

#[test]
fn point_fields_hold_the_submitted_numbers() {
    let point = extended_reading().to_point();
    let floats: Vec<(String, f32)> = point
        .fields
        .iter()
        .filter_map(|field| match field.value {
            FieldValue::Float(m) => Some((field.key.clone(), f32::from_bits(m.bits))),
            FieldValue::Integer(_) => None,
        })
        .collect();
    assert_eq!(
        floats,
        vec![
            ("rpi_temp".to_string(), 40.2f32),
            ("temp".to_string(), 21.5f32),
            ("pressure".to_string(), 1013.2f32),
            ("humidity".to_string(), 45.0f32),
        ]
    );
}

#[test]
fn point_keys_are_distinct_and_fields_are_present() {
    let point = extended_reading().to_point();
    assert!(!point.fields.is_empty());
    for (i, a) in point.tags.iter().enumerate() {
        for b in &point.tags[i + 1..] {
            assert_ne!(a.key, b.key);
        }
    }
    for (i, a) in point.fields.iter().enumerate() {
        for b in &point.fields[i + 1..] {
            assert_ne!(a.key, b.key);
        }
    }
}

#[test]
fn point_carries_an_uptime_beyond_the_signed_range_as_negative() {
    let mut reading = extended_reading();
    reading.uptime = u64::MAX;
    let point = reading.to_point();
    assert_eq!(point.fields[4], Field { key: "uptime".to_string(), value: FieldValue::Integer(-1) });
}

#[test]
fn point_takes_names_and_addresses_as_they_are() {
    let mut reading = extended_reading();
    reading.name = String::new();
    reading.ip_address = "not an address, with = and spaces".to_string();
    let point = reading.to_point();
    assert_eq!(point.tags[0].value, "");
    assert_eq!(point.tags[1].value, "not an address, with = and spaces");
}

#[test]
fn the_store_receives_the_extended_scenario_as_one_line() {
    let line = line_protocol(&extended_reading().to_point());
    let expected = format!(
        "rpi_sensors,ip_address=10.0.0.5,name=rpi-1 humidity={},pressure={},rpi_temp={},temp={},uptime=3600i\n",
        45.0f32 as f64,
        1013.2f32 as f64,
        40.2f32 as f64,
        21.5f32 as f64,
    );
    assert_eq!(line, expected);
    assert!(line.contains("humidity=45,"));
    assert!(line.contains("temp=21.5,"));
    assert_eq!(line.lines().count(), 1);
}
