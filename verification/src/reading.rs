//! Readings as devices submit them, and as the server records them.

use vstd::prelude::*;

verus! {

/// One single-precision measurement, held by its IEEE-754 bit pattern.
///
/// The service never computes with a measurement: it carries the value from
/// the request to the log and to the store.  Two measurements are the same
/// when their bit patterns are.
#[derive(Clone, Copy, Debug, PartialEq, Eq, Structural)]
pub struct Measurement {
    pub bits: u32,
}

/// A moment in time: whole seconds since the Unix epoch, and the nanoseconds
/// that have passed since that second began.
#[derive(Clone, Copy, Debug, PartialEq, Eq, Structural)]
pub struct Timestamp {
    pub secs: i64,
    pub nanos: u32,
}

/// A reading as a device submits it.  Every field is required.
#[derive(Clone, Debug, PartialEq, Eq)]
pub struct SensorData {
    pub name: String,
    pub rpi_temp: Measurement,
    pub temp: Measurement,
    pub pressure: Measurement,
    pub humidity: Measurement,
    pub ip_address: String,
    pub uptime: u64,
}

/// A reading together with the time at which the server received it.
#[derive(Clone, Debug, PartialEq, Eq)]
pub struct SensorDataWithTimestamp {
    pub name: String,
    pub rpi_temp: Measurement,
    pub temp: Measurement,
    pub pressure: Measurement,
    pub humidity: Measurement,
    pub ip_address: String,
    pub uptime: u64,
    pub timestamp: Timestamp,
}

/// What a [`SensorData`] holds, as mathematical values.
pub struct SensorDataView {
    pub name: Seq<char>,
    pub rpi_temp: Measurement,
    pub temp: Measurement,
    pub pressure: Measurement,
    pub humidity: Measurement,
    pub ip_address: Seq<char>,
    pub uptime: u64,
}

/// What a [`SensorDataWithTimestamp`] holds, as mathematical values.
pub struct SensorDataWithTimestampView {
    pub name: Seq<char>,
    pub rpi_temp: Measurement,
    pub temp: Measurement,
    pub pressure: Measurement,
    pub humidity: Measurement,
    pub ip_address: Seq<char>,
    pub uptime: u64,
    pub timestamp: Timestamp,
}

impl View for SensorData {
    type V = SensorDataView;

    open spec fn view(&self) -> SensorDataView {
        SensorDataView {
            name: self.name@,
            rpi_temp: self.rpi_temp,
            temp: self.temp,
            pressure: self.pressure,
            humidity: self.humidity,
            ip_address: self.ip_address@,
            uptime: self.uptime,
        }
    }
}

impl View for SensorDataWithTimestamp {
    type V = SensorDataWithTimestampView;

    open spec fn view(&self) -> SensorDataWithTimestampView {
        SensorDataWithTimestampView {
            name: self.name@,
            rpi_temp: self.rpi_temp,
            temp: self.temp,
            pressure: self.pressure,
            humidity: self.humidity,
            ip_address: self.ip_address@,
            uptime: self.uptime,
            timestamp: self.timestamp,
        }
    }
}

/// The record of `reading` received at `received_at`: every submitted field
/// unchanged, and the receipt time beside them.
pub open spec fn stamped(reading: SensorDataView, received_at: Timestamp) -> SensorDataWithTimestampView {
    SensorDataWithTimestampView {
        name: reading.name,
        rpi_temp: reading.rpi_temp,
        temp: reading.temp,
        pressure: reading.pressure,
        humidity: reading.humidity,
        ip_address: reading.ip_address,
        uptime: reading.uptime,
        timestamp: received_at,
    }
}

impl SensorDataWithTimestampView {
    /// The reading that this record was made from.
    pub open spec fn reading(self) -> SensorDataView {
        SensorDataView {
            name: self.name,
            rpi_temp: self.rpi_temp,
            temp: self.temp,
            pressure: self.pressure,
            humidity: self.humidity,
            ip_address: self.ip_address,
            uptime: self.uptime,
        }
    }
}

impl SensorData {
    /// Records this reading as received at `received_at`.
    pub fn stamp(&self, received_at: Timestamp) -> (record: SensorDataWithTimestamp)
        ensures
            record@ == stamped(self@, received_at),
    {
        SensorDataWithTimestamp {
            name: self.name.clone(),
            rpi_temp: self.rpi_temp,
            temp: self.temp,
            pressure: self.pressure,
            humidity: self.humidity,
            ip_address: self.ip_address.clone(),
            uptime: self.uptime,
            timestamp: received_at,
        }
    }
}

} // verus!
