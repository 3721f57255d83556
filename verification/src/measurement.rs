//! Drone measurement payloads: validation and the citizen-science `submit_data` record.

use vstd::prelude::*;
use crate::float_text::{
    latitude_in_range, latitude_spec, longitude_in_range, longitude_spec, non_negative_float,
    non_negative_spec,
};
use crate::text::{is_blank, is_blank_spec};

verus! {

/// Incoming drone reading from an x402-paying agent.
#[derive(Debug, PartialEq, Eq)]
pub struct DroneMeasurement {
    /// Latitude as decimal string (CosmWasm JSON rejects bare floats).
    pub lat: String,
    /// Longitude as decimal string.
    pub lon: String,
    /// Turbidity reading (NTU by default).
    pub turbidity: String,
    /// Content hash of captured imagery (e.g. sha256 hex).
    pub image_hash: String,
    /// Unique flight or agent run identifier.
    pub flight_id: String,
    /// Optional existing citizen-science sensor id on Osmosis.
    pub sensor_id: Option<u64>,
    /// Measurement unit label (defaults to NTU).
    pub unit: Option<String>,
    /// Optional human-readable site label.
    pub site: Option<String>,
}

/// Validation failures for [`DroneMeasurement`].
#[derive(Debug, Clone, Copy, PartialEq, Eq, Structural)]
pub enum MeasurementError {
    InvalidLat,
    InvalidLon,
    InvalidTurbidity,
    MissingImageHash,
    MissingFlightId,
}

/// A copy of an optional string.
pub fn clone_opt_text(o: &Option<String>) -> (r: Option<String>)
    ensures
        r == *o,
{
    match o {
        Some(s) => Some(s.clone()),
        None => None,
    }
}

impl Clone for DroneMeasurement {
    fn clone(&self) -> (r: Self)
        ensures
            r == *self,
    {
        DroneMeasurement {
            lat: self.lat.clone(),
            lon: self.lon.clone(),
            turbidity: self.turbidity.clone(),
            image_hash: self.image_hash.clone(),
            flight_id: self.flight_id.clone(),
            sensor_id: self.sensor_id,
            unit: clone_opt_text(&self.unit),
            site: clone_opt_text(&self.site),
        }
    }
}

impl MeasurementError {
    /// The text of the error.
    pub open spec fn message_spec(self) -> Seq<char> {
        match self {
            MeasurementError::InvalidLat => "lat must be a decimal between -90 and 90"@,
            MeasurementError::InvalidLon => "lon must be a decimal between -180 and 180"@,
            MeasurementError::InvalidTurbidity => "turbidity must be a non-negative decimal"@,
            MeasurementError::MissingImageHash => "image_hash must not be empty"@,
            MeasurementError::MissingFlightId => "flight_id must not be empty"@,
        }
    }

    /// The text of the error, as shown to clients.
    pub fn message(&self) -> (r: String)
        ensures
            r@ == self.message_spec(),
    {
        match self {
            MeasurementError::InvalidLat => "lat must be a decimal between -90 and 90".to_owned(),
            MeasurementError::InvalidLon => "lon must be a decimal between -180 and 180".to_owned(),
            MeasurementError::InvalidTurbidity => "turbidity must be a non-negative decimal".to_owned(),
            MeasurementError::MissingImageHash => "image_hash must not be empty".to_owned(),
            MeasurementError::MissingFlightId => "flight_id must not be empty".to_owned(),
        }
    }
}

/// The result of validating a measurement: the first failing check, in the order
/// flight id, image hash, latitude, longitude, turbidity.
pub open spec fn validation(m: DroneMeasurement) -> Result<(), MeasurementError> {
    if is_blank_spec(m.flight_id@) {
        Err(MeasurementError::MissingFlightId)
    } else if is_blank_spec(m.image_hash@) {
        Err(MeasurementError::MissingImageHash)
    } else if !latitude_spec(m.lat@) {
        Err(MeasurementError::InvalidLat)
    } else if !longitude_spec(m.lon@) {
        Err(MeasurementError::InvalidLon)
    } else if !non_negative_spec(m.turbidity@) {
        Err(MeasurementError::InvalidTurbidity)
    } else {
        Ok(())
    }
}

/// The record sent as `data` of the citizen-science `submit_data` message.
#[derive(Debug, PartialEq, Eq)]
pub struct ChainData {
    pub source: String,
    pub flight_id: String,
    pub lat: String,
    pub lon: String,
    pub value: String,
    pub unit: String,
    pub image_hash: String,
    pub site: Option<String>,
}

impl Clone for ChainData {
    fn clone(&self) -> (r: Self)
        ensures
            r == *self,
    {
        ChainData {
            source: self.source.clone(),
            flight_id: self.flight_id.clone(),
            lat: self.lat.clone(),
            lon: self.lon.clone(),
            value: self.value.clone(),
            unit: self.unit.clone(),
            image_hash: self.image_hash.clone(),
            site: clone_opt_text(&self.site),
        }
    }
}

/// Checks that `raw` is a latitude.
pub fn parse_lat(raw: &str) -> (r: Result<(), MeasurementError>)
    ensures
        r == (if latitude_spec(raw@) {
            Ok(())
        } else {
            Err(MeasurementError::InvalidLat)
        }),
{
    if latitude_in_range(raw) {
        Ok(())
    } else {
        Err(MeasurementError::InvalidLat)
    }
}

/// Checks that `raw` is a longitude.
pub fn parse_lon(raw: &str) -> (r: Result<(), MeasurementError>)
    ensures
        r == (if longitude_spec(raw@) {
            Ok(())
        } else {
            Err(MeasurementError::InvalidLon)
        }),
{
    if longitude_in_range(raw) {
        Ok(())
    } else {
        Err(MeasurementError::InvalidLon)
    }
}

/// Checks that `raw` is a decimal that is not below zero, failing with `err`.
pub fn parse_non_negative(raw: &str, err: MeasurementError) -> (r: Result<(), MeasurementError>)
    ensures
        r == (if non_negative_spec(raw@) {
            Ok(())
        } else {
            Err(err)
        }),
{
    if non_negative_float(raw) {
        Ok(())
    } else {
        Err(err)
    }
}

impl DroneMeasurement {
    /// Validates coordinate and reading fields.
    pub fn validate(&self) -> (r: Result<(), MeasurementError>)
        ensures
            r == validation(*self),
    {
        if is_blank(self.flight_id.as_str()) {
            return Err(MeasurementError::MissingFlightId);
        }
        if is_blank(self.image_hash.as_str()) {
            return Err(MeasurementError::MissingImageHash);
        }
        parse_lat(self.lat.as_str())?;
        parse_lon(self.lon.as_str())?;
        parse_non_negative(self.turbidity.as_str(), MeasurementError::InvalidTurbidity)?;
        Ok(())
    }

    /// The unit label that is sent on: the given one, else `NTU`.
    pub open spec fn unit_or_default(self) -> Seq<char> {
        match self.unit {
            Some(u) => u@,
            None => "NTU"@,
        }
    }

    /// Maps the drone reading to the citizen-science `submit_data` record.
    pub fn to_chain_data(&self) -> (d: ChainData)
        ensures
            d.source@ == "drone_agent"@,
            d.flight_id == self.flight_id,
            d.lat == self.lat,
            d.lon == self.lon,
            d.value == self.turbidity,
            d.unit@ == self.unit_or_default(),
            d.image_hash == self.image_hash,
            d.site == self.site,
    {
        let unit = match &self.unit {
            Some(u) => u.clone(),
            None => "NTU".to_owned(),
        };
        ChainData {
            source: "drone_agent".to_owned(),
            flight_id: self.flight_id.clone(),
            lat: self.lat.clone(),
            lon: self.lon.clone(),
            value: self.turbidity.clone(),
            unit,
            image_hash: self.image_hash.clone(),
            site: clone_opt_text(&self.site),
        }
    }
}

} // verus!
