//! The time-series point that a reading is stored as.

use vstd::prelude::*;
use crate::reading::{Measurement, SensorData, SensorDataView};

verus! {

/// The measurement that every point of this service belongs to.
pub const MEASUREMENT: &'static str = "rpi_sensors";

/// The bucket that every point of this service is written to.
pub const BUCKET: &'static str = "sensors-bucket";

/// The value of one field of a point, with the type the store is to give it.
#[derive(Clone, Copy, Debug, PartialEq, Eq, Structural)]
pub enum FieldValue {
    /// A measurement, stored as a floating-point number.
    Float(Measurement),
    /// A counter, stored as a signed 64-bit integer.
    Integer(i64),
}

/// A tag: a dimension by which the store indexes and groups points.
#[derive(Clone, Debug, PartialEq, Eq)]
pub struct Tag {
    pub key: String,
    pub value: String,
}

/// A field: one named value of a point.
#[derive(Clone, Debug, PartialEq, Eq)]
pub struct Field {
    pub key: String,
    pub value: FieldValue,
}

/// One point of a time series: a measurement name, tags and fields, in the
/// order in which they are to be handed to the store.  A point carries no
/// time of its own: the store assigns one when it takes the point.
#[derive(Clone, Debug, PartialEq, Eq)]
pub struct Point {
    pub measurement: String,
    pub tags: Vec<Tag>,
    pub fields: Vec<Field>,
}

/// What a [`Tag`] holds, as mathematical values.
pub struct TagView {
    pub key: Seq<char>,
    pub value: Seq<char>,
}

/// What a [`Field`] holds, as mathematical values.
pub struct FieldView {
    pub key: Seq<char>,
    pub value: FieldValue,
}

/// What a [`Point`] holds, as mathematical values.
pub struct PointView {
    pub measurement: Seq<char>,
    pub tags: Seq<TagView>,
    pub fields: Seq<FieldView>,
}

impl View for Tag {
    type V = TagView;

    open spec fn view(&self) -> TagView {
        TagView { key: self.key@, value: self.value@ }
    }
}

impl View for Field {
    type V = FieldView;

    open spec fn view(&self) -> FieldView {
        FieldView { key: self.key@, value: self.value }
    }
}

impl View for Point {
    type V = PointView;

    open spec fn view(&self) -> PointView {
        PointView {
            measurement: self.measurement@,
            tags: Seq::new(self.tags@.len(), |i: int| self.tags@[i]@),
            fields: Seq::new(self.fields@.len(), |i: int| self.fields@[i]@),
        }
    }
}

impl PointView {
    /// A point that a store which keeps one value per key takes whole: it has
    /// at least one field, no two tags share a key, and no two fields do.
    pub open spec fn well_formed(self) -> bool {
        &&& self.fields.len() > 0
        &&& forall|i: int, j: int|
            0 <= i < j < self.tags.len() ==> self.tags[i].key != self.tags[j].key
        &&& forall|i: int, j: int|
            0 <= i < j < self.fields.len() ==> self.fields[i].key != self.fields[j].key
    }
}

/// The uptime counter as the signed integer that the store keeps: the same
/// 64 bits read in two's complement.  Counters below 2^63 keep their value;
/// larger ones come out negative.
pub open spec fn uptime_field(uptime: u64) -> i64 {
    if uptime <= i64::MAX {
        uptime as i64
    } else {
        (uptime - 0x1_0000_0000_0000_0000) as i64
    }
}

/// The point that `reading` is stored as.
///
/// Its measurement is [`MEASUREMENT`].  It is tagged by the device's name and
/// its address.  The four environmental measurements become floating-point
/// fields and the uptime becomes an integer field; the receipt time is not
/// part of the point.
pub open spec fn point_of(reading: SensorDataView) -> PointView {
    PointView {
        measurement: MEASUREMENT@,
        tags: seq![
            TagView { key: "name"@, value: reading.name },
            TagView { key: "ip_address"@, value: reading.ip_address },
        ],
        fields: seq![
            FieldView { key: "rpi_temp"@, value: FieldValue::Float(reading.rpi_temp) },
            FieldView { key: "temp"@, value: FieldValue::Float(reading.temp) },
            FieldView { key: "pressure"@, value: FieldValue::Float(reading.pressure) },
            FieldView { key: "humidity"@, value: FieldValue::Float(reading.humidity) },
            FieldView { key: "uptime"@, value: FieldValue::Integer(uptime_field(reading.uptime)) },
        ],
    }
}

/// Reads the uptime counter as the signed integer that the store keeps.
pub fn uptime_as_integer(uptime: u64) -> (value: i64)
    ensures
        value == uptime_field(uptime),
{
    if uptime <= 0x7fff_ffff_ffff_ffff {
        uptime as i64
    } else {
        let above: u64 = uptime - 0x8000_0000_0000_0000;
        (above as i64) + i64::MIN
    }
}

impl SensorData {
    /// Derives the point that this reading is stored as.
    pub fn to_point(&self) -> (point: Point)
        ensures
            point@ == point_of(self@),
    {
        let mut tags: Vec<Tag> = Vec::new();
        tags.push(Tag { key: "name".to_owned(), value: self.name.clone() });
        tags.push(Tag { key: "ip_address".to_owned(), value: self.ip_address.clone() });
        let mut fields: Vec<Field> = Vec::new();
        fields.push(Field { key: "rpi_temp".to_owned(), value: FieldValue::Float(self.rpi_temp) });
        fields.push(Field { key: "temp".to_owned(), value: FieldValue::Float(self.temp) });
        fields.push(Field { key: "pressure".to_owned(), value: FieldValue::Float(self.pressure) });
        fields.push(Field { key: "humidity".to_owned(), value: FieldValue::Float(self.humidity) });
        fields.push(
            Field { key: "uptime".to_owned(), value: FieldValue::Integer(uptime_as_integer(self.uptime)) },
        );
        let point = Point { measurement: MEASUREMENT.to_owned(), tags, fields };
        assert(point@.tags =~= point_of(self@).tags);
        assert(point@.fields =~= point_of(self@).fields);
        point
    }
}

/// Every point derived from a reading is well formed, whatever the reading
/// holds.
pub proof fn lemma_point_of_well_formed(reading: SensorDataView)
    ensures
        point_of(reading).well_formed(),
{
    reveal_strlit("name");
    reveal_strlit("ip_address");
    reveal_strlit("rpi_temp");
    reveal_strlit("temp");
    reveal_strlit("pressure");
    reveal_strlit("humidity");
    reveal_strlit("uptime");
    let p = point_of(reading);
    assert(p.tags[0].key.len() != p.tags[1].key.len());
    assert(p.fields[0].key[0] == 'r');
    assert(p.fields[2].key[0] == 'p');
    assert(p.fields[3].key[0] == 'h');
    assert(p.fields[1].key.len() == 4);
    assert(p.fields[4].key.len() == 6);
}

} // verus!
