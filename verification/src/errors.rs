//! Typed decode errors. Every failure names the field (or the observed
//! array length) that refused, so a caller can see where a response went
//! wrong; the schema-variant error carries both underlying failures.
use vstd::prelude::*;

verus! {

/// Names a wire field, for error context.
#[derive(Clone, Copy, Debug, PartialEq, Eq, Structural)]
pub enum FieldId {
    Time,
    States,
    Icao24,
    Callsign,
    OriginCountry,
    TimePosition,
    LastContact,
    Longitude,
    Latitude,
    BaroAltitude,
    OnGround,
    Velocity,
    TrueTrack,
    VerticalRate,
    Sensors,
    GeoAltitude,
    Squawk,
    Spi,
    PositionSource,
    Category,
    FirstSeen,
    LastSeen,
    EstDepartureAirport,
    EstArrivalAirport,
    EstDepartureAirportHorizDistance,
    EstDepartureAirportVertDistance,
    EstArrivalAirportHorizDistance,
    EstArrivalAirportVertDistance,
    DepartureAirportCandidatesCount,
    ArrivalAirportCandidatesCount,
    StartTime,
    EndTime,
    Path,
    WaypointTime,
}

/// Why one parse attempt over one schema shape refused.
#[derive(Clone, Copy, Debug, PartialEq, Eq, Structural)]
pub enum FormError {
    /// The top level (or a record that must be a keyed map) is not an object.
    NotAnObject,
    /// A collection (or a positional record) is not an array.
    NotAnArray,
    /// A required key is absent from an object-form record.
    MissingField(FieldId),
    /// A required key is present but wire-null, with no sanctioned default.
    NullField(FieldId),
    /// An element or keyed value has the wrong JSON type.
    WrongType(FieldId),
    /// A positional record has an element count outside the schema shape,
    /// reporting the length actually observed.
    WrongLength { observed: usize },
}

/// Why a whole decode failed.
#[derive(Clone, Copy, Debug, PartialEq, Eq, Structural)]
pub enum DecodeError {
    /// The body is not JSON at all.
    Json,
    /// The single attempted schema shape refused.
    Form(FormError),
    /// Both the long-form and the short-form attempt refused; both underlying
    /// failures are reported.
    BothForms { long: FormError, short: FormError },
}

} // verus!
