//! The bounding box a states request can be restricted to.
use vstd::prelude::*;

verus! {

/// Represents a certain area defined by a bounding box of WGS-84
/// coordinates.
///
/// The four bounds are held as their decimal text, exactly as they will be
/// embedded into the request URL: the library never computes with
/// coordinates, so nothing is gained — and wire fidelity lost — by storing
/// them any other way.
#[derive(Debug, PartialEq)]
pub struct BoundingBox {
    /// Lower bound for the latitude, in decimal degrees.
    pub lat_min: String,
    /// Upper bound for the latitude, in decimal degrees.
    pub lat_max: String,
    /// Lower bound for the longitude, in decimal degrees.
    pub long_min: String,
    /// Upper bound for the longitude, in decimal degrees.
    pub long_max: String,
}

/// The mathematical view of a [`BoundingBox`].
pub struct BoundingBoxV {
    pub lat_min: Seq<char>,
    pub lat_max: Seq<char>,
    pub long_min: Seq<char>,
    pub long_max: Seq<char>,
}

impl View for BoundingBox {
    type V = BoundingBoxV;

    open spec fn view(&self) -> BoundingBoxV {
        BoundingBoxV {
            lat_min: self.lat_min@,
            lat_max: self.lat_max@,
            long_min: self.long_min@,
            long_max: self.long_max@,
        }
    }
}

impl BoundingBox {
    /// Creates a new BoundingBox with the given coordinate texts.
    pub fn new(lat_min: String, lat_max: String, long_min: String, long_max: String) -> (r:
        BoundingBox)
        ensures
            r@ == (BoundingBoxV {
                lat_min: lat_min@,
                lat_max: lat_max@,
                long_min: long_min@,
                long_max: long_max@,
            }),
    {
        BoundingBox { lat_min, lat_max, long_min, long_max }
    }

    /// An owned copy with the same view.
    pub fn duplicate(&self) -> (r: BoundingBox)
        ensures
            r@ == self@,
    {
        BoundingBox {
            lat_min: self.lat_min.clone(),
            lat_max: self.lat_max.clone(),
            long_min: self.long_min.clone(),
            long_max: self.long_max.clone(),
        }
    }
}

} // verus!
