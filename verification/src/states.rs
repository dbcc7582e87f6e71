//! State vectors: the enumerated field codec, the positional record decoder,
//! the tolerant collection decoder and the canonical re-encoder.
use vstd::prelude::*;

use crate::errors::{DecodeError, FieldId, FormError};
use crate::json::{
    spec_enc_opt_num, spec_enc_opt_str, spec_enc_opt_u64, spec_enc_opt_u64_seq,
    spec_enc_u64_seq, vopt_num, vopt_str, vopt_u64s,
    json_view, json_view_fields, json_view_seq, spec_as_bool, spec_as_num, spec_as_opt_num,
    spec_as_opt_str, spec_as_opt_u64, spec_as_opt_u64_seq, spec_as_str, spec_as_u64,
    spec_obj_get, spec_u64_seq, JsonNumber, JsonV, JsonValue, NumberV,
};
use crate::bounding_box::{BoundingBox, BoundingBoxV};
use crate::text::{spec_dec_nat, str_eq};
use crate::{Login, LoginV};
use vstd::string::StringExecFns;

verus! {

/// Origin of a state's position report.
///
/// On the wire this arrives either as a small integer ordinal or as the
/// canonical name string; an unrecognized value falls back to `ADSB`, the
/// documented default — never a decode failure.
#[derive(Clone, Copy, Debug, PartialEq, Eq, Structural)]
pub enum PositionSource {
    ADSB,
    ASTERIX,
    MLAT,
    FLARM,
}

impl PositionSource {
    /// The value an integer ordinal decodes to; unknown ordinals fall back
    /// to `ADSB`.
    pub open spec fn spec_from_ordinal(u: u64) -> PositionSource {
        if u == 1 {
            PositionSource::ASTERIX
        } else if u == 2 {
            PositionSource::MLAT
        } else if u == 3 {
            PositionSource::FLARM
        } else {
            PositionSource::ADSB
        }
    }

    /// Whether an integer ordinal is a known variant.
    pub open spec fn spec_known_ordinal(u: u64) -> bool {
        u <= 3
    }

    /// The canonical name of each variant.
    pub open spec fn spec_name(self) -> Seq<char> {
        match self {
            PositionSource::ADSB => "ADSB"@,
            PositionSource::ASTERIX => "ASTERIX"@,
            PositionSource::MLAT => "MLAT"@,
            PositionSource::FLARM => "FLARM"@,
        }
    }

    /// The value a name string decodes to; unknown names fall back to `ADSB`.
    pub open spec fn spec_from_name(s: Seq<char>) -> PositionSource {
        if s == "ASTERIX"@ {
            PositionSource::ASTERIX
        } else if s == "MLAT"@ {
            PositionSource::MLAT
        } else if s == "FLARM"@ {
            PositionSource::FLARM
        } else {
            PositionSource::ADSB
        }
    }

    /// Whether a name string is a known variant name.
    pub open spec fn spec_known_name(s: Seq<char>) -> bool {
        s == "ADSB"@ || s == "ASTERIX"@ || s == "MLAT"@ || s == "FLARM"@
    }

    /// Decodes an integer ordinal, falling back to `ADSB` on unknown values.
    pub fn from_ordinal(u: u64) -> (r: PositionSource)
        ensures
            r == Self::spec_from_ordinal(u),
    {
        if u == 1 {
            PositionSource::ASTERIX
        } else if u == 2 {
            PositionSource::MLAT
        } else if u == 3 {
            PositionSource::FLARM
        } else {
            PositionSource::ADSB
        }
    }

    /// Decodes a name string, falling back to `ADSB` on unknown names.
    pub fn from_name(s: &str) -> (r: PositionSource)
        ensures
            r == Self::spec_from_name(s@),
    {
        if str_eq(s, "ASTERIX") {
            PositionSource::ASTERIX
        } else if str_eq(s, "MLAT") {
            PositionSource::MLAT
        } else if str_eq(s, "FLARM") {
            PositionSource::FLARM
        } else {
            PositionSource::ADSB
        }
    }

    /// The canonical name, as emitted by the canonical encoder.
    pub fn name(&self) -> (r: &'static str)
        ensures
            r@ == self.spec_name(),
    {
        match self {
            PositionSource::ADSB => "ADSB",
            PositionSource::ASTERIX => "ASTERIX",
            PositionSource::MLAT => "MLAT",
            PositionSource::FLARM => "FLARM",
        }
    }
}

/// Law: decoding a variant's canonical name yields that variant back, and
/// every canonical name is a known name.
pub proof fn lemma_position_source_name_round_trip(p: PositionSource)
    ensures
        PositionSource::spec_from_name(p.spec_name()) == p,
        PositionSource::spec_known_name(p.spec_name()),
{
    reveal_strlit("ADSB");
    reveal_strlit("ASTERIX");
    reveal_strlit("MLAT");
    reveal_strlit("FLARM");
    assert("ADSB"@[0] != "MLAT"@[0]);
    assert("ADSB"@ != "MLAT"@);
    assert("ADSB"@.len() != "ASTERIX"@.len());
    assert("ADSB"@.len() != "FLARM"@.len());
    assert("MLAT"@.len() != "FLARM"@.len());
}

/// The aircraft category reported with some state vectors.
///
/// Like [`PositionSource`], arrives as an ordinal or a name; unrecognized
/// values fall back to `NoInformation`.
#[derive(Clone, Copy, Debug, PartialEq, Eq, Structural)]
pub enum AirCraftCategory {
    /// No information at all
    NoInformation,
    /// No ADS-B Emitter Category Information
    NoADSB,
    /// Light (< 15500 lbs)
    Light,
    /// Small (15500 to 75000 lbs)
    Small,
    /// Large (75000 to 300000 lbs)
    Large,
    /// High Vortex Large (aircraft such as B-757)
    HighVortexLarge,
    /// Heavy (> 300000 lbs)
    Heavy,
    /// High Performance (> 5g acceleration and 400 kts)
    HighPerformance,
    /// Rotorcraft
    Rotorcraft,
    /// Glider / sailplane
    Glider,
    /// Lighter-than-air
    LighterThanAir,
    /// Parachutist / Skydiver
    Parachutist,
    /// Ultralight / hang-glider / paraglider
    Ultralight,
    /// Reserved
    Reserved,
    /// Unmanned Aerial Vehicle
    UAV,
    /// Space / Trans-atmospheric vehicle
    Space,
    /// Surface Vehicle - Emergency Vehicle
    SurfaceEmergency,
    /// Surface Vehicle - Service Vehicle
    SurfaceService,
    /// Point Obstacle (includes tethered balloons)
    PointObstacle,
    /// Cluster Obstacle
    ClusterObstacle,
    /// Line Obstacle
    LineObstacle,
}

impl AirCraftCategory {
    /// The value an integer ordinal decodes to; unknown ordinals fall back
    /// to `NoInformation`.
    pub open spec fn spec_from_ordinal(u: u64) -> AirCraftCategory {
        if u == 1 {
            AirCraftCategory::NoADSB
        } else if u == 2 {
            AirCraftCategory::Light
        } else if u == 3 {
            AirCraftCategory::Small
        } else if u == 4 {
            AirCraftCategory::Large
        } else if u == 5 {
            AirCraftCategory::HighVortexLarge
        } else if u == 6 {
            AirCraftCategory::Heavy
        } else if u == 7 {
            AirCraftCategory::HighPerformance
        } else if u == 8 {
            AirCraftCategory::Rotorcraft
        } else if u == 9 {
            AirCraftCategory::Glider
        } else if u == 10 {
            AirCraftCategory::LighterThanAir
        } else if u == 11 {
            AirCraftCategory::Parachutist
        } else if u == 12 {
            AirCraftCategory::Ultralight
        } else if u == 13 {
            AirCraftCategory::Reserved
        } else if u == 14 {
            AirCraftCategory::UAV
        } else if u == 15 {
            AirCraftCategory::Space
        } else if u == 16 {
            AirCraftCategory::SurfaceEmergency
        } else if u == 17 {
            AirCraftCategory::SurfaceService
        } else if u == 18 {
            AirCraftCategory::PointObstacle
        } else if u == 19 {
            AirCraftCategory::ClusterObstacle
        } else if u == 20 {
            AirCraftCategory::LineObstacle
        } else {
            AirCraftCategory::NoInformation
        }
    }

    /// Whether an integer ordinal is a known variant.
    pub open spec fn spec_known_ordinal(u: u64) -> bool {
        u <= 20
    }

    /// The canonical name of each variant.
    pub open spec fn spec_name(self) -> Seq<char> {
        match self {
            AirCraftCategory::NoInformation => "NoInformation"@,
            AirCraftCategory::NoADSB => "NoADSB"@,
            AirCraftCategory::Light => "Light"@,
            AirCraftCategory::Small => "Small"@,
            AirCraftCategory::Large => "Large"@,
            AirCraftCategory::HighVortexLarge => "HighVortexLarge"@,
            AirCraftCategory::Heavy => "Heavy"@,
            AirCraftCategory::HighPerformance => "HighPerformance"@,
            AirCraftCategory::Rotorcraft => "Rotorcraft"@,
            AirCraftCategory::Glider => "Glider"@,
            AirCraftCategory::LighterThanAir => "LighterThanAir"@,
            AirCraftCategory::Parachutist => "Parachutist"@,
            AirCraftCategory::Ultralight => "Ultralight"@,
            AirCraftCategory::Reserved => "Reserved"@,
            AirCraftCategory::UAV => "UAV"@,
            AirCraftCategory::Space => "Space"@,
            AirCraftCategory::SurfaceEmergency => "SurfaceEmergency"@,
            AirCraftCategory::SurfaceService => "SurfaceService"@,
            AirCraftCategory::PointObstacle => "PointObstacle"@,
            AirCraftCategory::ClusterObstacle => "ClusterObstacle"@,
            AirCraftCategory::LineObstacle => "LineObstacle"@,
        }
    }

    /// The value a name string decodes to; unknown names fall back to
    /// `NoInformation`.
    pub open spec fn spec_from_name(s: Seq<char>) -> AirCraftCategory {
        if s == "NoADSB"@ {
            AirCraftCategory::NoADSB
        } else if s == "Light"@ {
            AirCraftCategory::Light
        } else if s == "Small"@ {
            AirCraftCategory::Small
        } else if s == "Large"@ {
            AirCraftCategory::Large
        } else if s == "HighVortexLarge"@ {
            AirCraftCategory::HighVortexLarge
        } else if s == "Heavy"@ {
            AirCraftCategory::Heavy
        } else if s == "HighPerformance"@ {
            AirCraftCategory::HighPerformance
        } else if s == "Rotorcraft"@ {
            AirCraftCategory::Rotorcraft
        } else if s == "Glider"@ {
            AirCraftCategory::Glider
        } else if s == "LighterThanAir"@ {
            AirCraftCategory::LighterThanAir
        } else if s == "Parachutist"@ {
            AirCraftCategory::Parachutist
        } else if s == "Ultralight"@ {
            AirCraftCategory::Ultralight
        } else if s == "Reserved"@ {
            AirCraftCategory::Reserved
        } else if s == "UAV"@ {
            AirCraftCategory::UAV
        } else if s == "Space"@ {
            AirCraftCategory::Space
        } else if s == "SurfaceEmergency"@ {
            AirCraftCategory::SurfaceEmergency
        } else if s == "SurfaceService"@ {
            AirCraftCategory::SurfaceService
        } else if s == "PointObstacle"@ {
            AirCraftCategory::PointObstacle
        } else if s == "ClusterObstacle"@ {
            AirCraftCategory::ClusterObstacle
        } else if s == "LineObstacle"@ {
            AirCraftCategory::LineObstacle
        } else {
            AirCraftCategory::NoInformation
        }
    }

    /// Whether a name string is a known variant name.
    pub open spec fn spec_known_name(s: Seq<char>) -> bool {
        ||| s == "NoInformation"@
        ||| s == "NoADSB"@
        ||| s == "Light"@
        ||| s == "Small"@
        ||| s == "Large"@
        ||| s == "HighVortexLarge"@
        ||| s == "Heavy"@
        ||| s == "HighPerformance"@
        ||| s == "Rotorcraft"@
        ||| s == "Glider"@
        ||| s == "LighterThanAir"@
        ||| s == "Parachutist"@
        ||| s == "Ultralight"@
        ||| s == "Reserved"@
        ||| s == "UAV"@
        ||| s == "Space"@
        ||| s == "SurfaceEmergency"@
        ||| s == "SurfaceService"@
        ||| s == "PointObstacle"@
        ||| s == "ClusterObstacle"@
        ||| s == "LineObstacle"@
    }

    /// Decodes an integer ordinal, falling back to `NoInformation`.
    pub fn from_ordinal(u: u64) -> (r: AirCraftCategory)
        ensures
            r == Self::spec_from_ordinal(u),
    {
        if u == 1 {
            AirCraftCategory::NoADSB
        } else if u == 2 {
            AirCraftCategory::Light
        } else if u == 3 {
            AirCraftCategory::Small
        } else if u == 4 {
            AirCraftCategory::Large
        } else if u == 5 {
            AirCraftCategory::HighVortexLarge
        } else if u == 6 {
            AirCraftCategory::Heavy
        } else if u == 7 {
            AirCraftCategory::HighPerformance
        } else if u == 8 {
            AirCraftCategory::Rotorcraft
        } else if u == 9 {
            AirCraftCategory::Glider
        } else if u == 10 {
            AirCraftCategory::LighterThanAir
        } else if u == 11 {
            AirCraftCategory::Parachutist
        } else if u == 12 {
            AirCraftCategory::Ultralight
        } else if u == 13 {
            AirCraftCategory::Reserved
        } else if u == 14 {
            AirCraftCategory::UAV
        } else if u == 15 {
            AirCraftCategory::Space
        } else if u == 16 {
            AirCraftCategory::SurfaceEmergency
        } else if u == 17 {
            AirCraftCategory::SurfaceService
        } else if u == 18 {
            AirCraftCategory::PointObstacle
        } else if u == 19 {
            AirCraftCategory::ClusterObstacle
        } else if u == 20 {
            AirCraftCategory::LineObstacle
        } else {
            AirCraftCategory::NoInformation
        }
    }

    /// Decodes a name string, falling back to `NoInformation`.
    pub fn from_name(s: &str) -> (r: AirCraftCategory)
        ensures
            r == Self::spec_from_name(s@),
    {
        if str_eq(s, "NoADSB") {
            AirCraftCategory::NoADSB
        } else if str_eq(s, "Light") {
            AirCraftCategory::Light
        } else if str_eq(s, "Small") {
            AirCraftCategory::Small
        } else if str_eq(s, "Large") {
            AirCraftCategory::Large
        } else if str_eq(s, "HighVortexLarge") {
            AirCraftCategory::HighVortexLarge
        } else if str_eq(s, "Heavy") {
            AirCraftCategory::Heavy
        } else if str_eq(s, "HighPerformance") {
            AirCraftCategory::HighPerformance
        } else if str_eq(s, "Rotorcraft") {
            AirCraftCategory::Rotorcraft
        } else if str_eq(s, "Glider") {
            AirCraftCategory::Glider
        } else if str_eq(s, "LighterThanAir") {
            AirCraftCategory::LighterThanAir
        } else if str_eq(s, "Parachutist") {
            AirCraftCategory::Parachutist
        } else if str_eq(s, "Ultralight") {
            AirCraftCategory::Ultralight
        } else if str_eq(s, "Reserved") {
            AirCraftCategory::Reserved
        } else if str_eq(s, "UAV") {
            AirCraftCategory::UAV
        } else if str_eq(s, "Space") {
            AirCraftCategory::Space
        } else if str_eq(s, "SurfaceEmergency") {
            AirCraftCategory::SurfaceEmergency
        } else if str_eq(s, "SurfaceService") {
            AirCraftCategory::SurfaceService
        } else if str_eq(s, "PointObstacle") {
            AirCraftCategory::PointObstacle
        } else if str_eq(s, "ClusterObstacle") {
            AirCraftCategory::ClusterObstacle
        } else if str_eq(s, "LineObstacle") {
            AirCraftCategory::LineObstacle
        } else {
            AirCraftCategory::NoInformation
        }
    }

    /// The canonical name, as emitted by the canonical encoder.
    pub fn name(&self) -> (r: &'static str)
        ensures
            r@ == self.spec_name(),
    {
        match self {
            AirCraftCategory::NoInformation => "NoInformation",
            AirCraftCategory::NoADSB => "NoADSB",
            AirCraftCategory::Light => "Light",
            AirCraftCategory::Small => "Small",
            AirCraftCategory::Large => "Large",
            AirCraftCategory::HighVortexLarge => "HighVortexLarge",
            AirCraftCategory::Heavy => "Heavy",
            AirCraftCategory::HighPerformance => "HighPerformance",
            AirCraftCategory::Rotorcraft => "Rotorcraft",
            AirCraftCategory::Glider => "Glider",
            AirCraftCategory::LighterThanAir => "LighterThanAir",
            AirCraftCategory::Parachutist => "Parachutist",
            AirCraftCategory::Ultralight => "Ultralight",
            AirCraftCategory::Reserved => "Reserved",
            AirCraftCategory::UAV => "UAV",
            AirCraftCategory::Space => "Space",
            AirCraftCategory::SurfaceEmergency => "SurfaceEmergency",
            AirCraftCategory::SurfaceService => "SurfaceService",
            AirCraftCategory::PointObstacle => "PointObstacle",
            AirCraftCategory::ClusterObstacle => "ClusterObstacle",
            AirCraftCategory::LineObstacle => "LineObstacle",
        }
    }
}

/// Law: decoding a variant's canonical name yields that variant back, and
/// every canonical name is a known name.
/// Law: decoding a variant's canonical name yields that variant back, and
/// every canonical name is a known name.
/// The default variant's name falls through every other branch of the
/// name codec: it differs from all twenty other canonical names.
proof fn lemma_category_default_name()
    ensures
        AirCraftCategory::spec_from_name("NoInformation"@) == AirCraftCategory::NoInformation,
        AirCraftCategory::spec_known_name("NoInformation"@),
{
    reveal_strlit("NoADSB");
    reveal_strlit("Light");
    reveal_strlit("Small");
    reveal_strlit("Large");
    reveal_strlit("HighVortexLarge");
    reveal_strlit("Heavy");
    reveal_strlit("HighPerformance");
    reveal_strlit("Rotorcraft");
    reveal_strlit("Glider");
    reveal_strlit("LighterThanAir");
    reveal_strlit("Parachutist");
    reveal_strlit("Ultralight");
    reveal_strlit("Reserved");
    reveal_strlit("UAV");
    reveal_strlit("Space");
    reveal_strlit("SurfaceEmergency");
    reveal_strlit("SurfaceService");
    reveal_strlit("PointObstacle");
    reveal_strlit("ClusterObstacle");
    reveal_strlit("LineObstacle");
    reveal_strlit("NoInformation");
    assert("NoInformation"@.len() == 13);
    assert("PointObstacle"@.len() == 13);
    assert("SurfaceService"@.len() == 14);
    assert("LighterThanAir"@.len() == 14);
    assert("NoInformation"@[0] != "PointObstacle"@[0]);
    assert("NoInformation"@ != "PointObstacle"@);
    assert("NoInformation"@ != "SurfaceService"@);
    assert("NoInformation"@ != "UAV"@);
    assert("NoInformation"@ != "NoADSB"@);
    assert(AirCraftCategory::spec_from_name("NoInformation"@)
        == AirCraftCategory::NoInformation);
}

/// Law: decoding a variant's canonical name yields that variant back, and
/// every canonical name is a known name.
#[verifier::rlimit(100)]
pub proof fn lemma_category_name_round_trip(c: AirCraftCategory)
    ensures
        AirCraftCategory::spec_from_name(c.spec_name()) == c,
        AirCraftCategory::spec_known_name(c.spec_name()),
{
    match c {
        AirCraftCategory::NoInformation => {
            lemma_category_default_name();
        },
        AirCraftCategory::NoADSB => {
            reveal_strlit("NoADSB");
            assert("NoADSB"@.len() == 6);
        },
        AirCraftCategory::Light => {
            reveal_strlit("NoADSB");
            reveal_strlit("Light");
            assert("NoADSB"@.len() == 6);
            assert("Light"@.len() == 5);
        },
        AirCraftCategory::Small => {
            reveal_strlit("NoADSB");
            reveal_strlit("Light");
            reveal_strlit("Small");
            assert("NoADSB"@.len() == 6);
            assert("Light"@.len() == 5);
            assert("Small"@.len() == 5);
            assert("Small"@[0] != "Light"@[0]);
            assert("Small"@ != "Light"@);
        },
        AirCraftCategory::Large => {
            reveal_strlit("NoADSB");
            reveal_strlit("Light");
            reveal_strlit("Small");
            reveal_strlit("Large");
            assert("NoADSB"@.len() == 6);
            assert("Light"@.len() == 5);
            assert("Small"@.len() == 5);
            assert("Large"@.len() == 5);
            assert("Large"@[1] != "Light"@[1]);
            assert("Large"@ != "Light"@);
            assert("Large"@[0] != "Small"@[0]);
            assert("Large"@ != "Small"@);
        },
        AirCraftCategory::HighVortexLarge => {
            reveal_strlit("NoADSB");
            reveal_strlit("Light");
            reveal_strlit("Small");
            reveal_strlit("Large");
            reveal_strlit("HighVortexLarge");
            assert("NoADSB"@.len() == 6);
            assert("Light"@.len() == 5);
            assert("Small"@.len() == 5);
            assert("Large"@.len() == 5);
            assert("HighVortexLarge"@.len() == 15);
        },
        AirCraftCategory::Heavy => {
            reveal_strlit("NoADSB");
            reveal_strlit("Light");
            reveal_strlit("Small");
            reveal_strlit("Large");
            reveal_strlit("HighVortexLarge");
            reveal_strlit("Heavy");
            assert("NoADSB"@.len() == 6);
            assert("Light"@.len() == 5);
            assert("Small"@.len() == 5);
            assert("Large"@.len() == 5);
            assert("HighVortexLarge"@.len() == 15);
            assert("Heavy"@.len() == 5);
            assert("Heavy"@[0] != "Light"@[0]);
            assert("Heavy"@ != "Light"@);
            assert("Heavy"@[0] != "Small"@[0]);
            assert("Heavy"@ != "Small"@);
            assert("Heavy"@[0] != "Large"@[0]);
            assert("Heavy"@ != "Large"@);
        },
        AirCraftCategory::HighPerformance => {
            reveal_strlit("NoADSB");
            reveal_strlit("Light");
            reveal_strlit("Small");
            reveal_strlit("Large");
            reveal_strlit("HighVortexLarge");
            reveal_strlit("Heavy");
            reveal_strlit("HighPerformance");
            assert("NoADSB"@.len() == 6);
            assert("Light"@.len() == 5);
            assert("Small"@.len() == 5);
            assert("Large"@.len() == 5);
            assert("HighVortexLarge"@.len() == 15);
            assert("Heavy"@.len() == 5);
            assert("HighPerformance"@.len() == 15);
            assert("HighPerformance"@[4] != "HighVortexLarge"@[4]);
            assert("HighPerformance"@ != "HighVortexLarge"@);
        },
        AirCraftCategory::Rotorcraft => {
            reveal_strlit("NoADSB");
            reveal_strlit("Light");
            reveal_strlit("Small");
            reveal_strlit("Large");
            reveal_strlit("HighVortexLarge");
            reveal_strlit("Heavy");
            reveal_strlit("HighPerformance");
            reveal_strlit("Rotorcraft");
            assert("NoADSB"@.len() == 6);
            assert("Light"@.len() == 5);
            assert("Small"@.len() == 5);
            assert("Large"@.len() == 5);
            assert("HighVortexLarge"@.len() == 15);
            assert("Heavy"@.len() == 5);
            assert("HighPerformance"@.len() == 15);
            assert("Rotorcraft"@.len() == 10);
        },
        AirCraftCategory::Glider => {
            reveal_strlit("NoADSB");
            reveal_strlit("Light");
            reveal_strlit("Small");
            reveal_strlit("Large");
            reveal_strlit("HighVortexLarge");
            reveal_strlit("Heavy");
            reveal_strlit("HighPerformance");
            reveal_strlit("Rotorcraft");
            reveal_strlit("Glider");
            assert("NoADSB"@.len() == 6);
            assert("Light"@.len() == 5);
            assert("Small"@.len() == 5);
            assert("Large"@.len() == 5);
            assert("HighVortexLarge"@.len() == 15);
            assert("Heavy"@.len() == 5);
            assert("HighPerformance"@.len() == 15);
            assert("Rotorcraft"@.len() == 10);
            assert("Glider"@.len() == 6);
            assert("Glider"@[0] != "NoADSB"@[0]);
            assert("Glider"@ != "NoADSB"@);
        },
        AirCraftCategory::LighterThanAir => {
            reveal_strlit("NoADSB");
            reveal_strlit("Light");
            reveal_strlit("Small");
            reveal_strlit("Large");
            reveal_strlit("HighVortexLarge");
            reveal_strlit("Heavy");
            reveal_strlit("HighPerformance");
            reveal_strlit("Rotorcraft");
            reveal_strlit("Glider");
            reveal_strlit("LighterThanAir");
            assert("NoADSB"@.len() == 6);
            assert("Light"@.len() == 5);
            assert("Small"@.len() == 5);
            assert("Large"@.len() == 5);
            assert("HighVortexLarge"@.len() == 15);
            assert("Heavy"@.len() == 5);
            assert("HighPerformance"@.len() == 15);
            assert("Rotorcraft"@.len() == 10);
            assert("Glider"@.len() == 6);
            assert("LighterThanAir"@.len() == 14);
        },
        AirCraftCategory::Parachutist => {
            reveal_strlit("NoADSB");
            reveal_strlit("Light");
            reveal_strlit("Small");
            reveal_strlit("Large");
            reveal_strlit("HighVortexLarge");
            reveal_strlit("Heavy");
            reveal_strlit("HighPerformance");
            reveal_strlit("Rotorcraft");
            reveal_strlit("Glider");
            reveal_strlit("LighterThanAir");
            reveal_strlit("Parachutist");
            assert("NoADSB"@.len() == 6);
            assert("Light"@.len() == 5);
            assert("Small"@.len() == 5);
            assert("Large"@.len() == 5);
            assert("HighVortexLarge"@.len() == 15);
            assert("Heavy"@.len() == 5);
            assert("HighPerformance"@.len() == 15);
            assert("Rotorcraft"@.len() == 10);
            assert("Glider"@.len() == 6);
            assert("LighterThanAir"@.len() == 14);
            assert("Parachutist"@.len() == 11);
        },
        AirCraftCategory::Ultralight => {
            reveal_strlit("NoADSB");
            reveal_strlit("Light");
            reveal_strlit("Small");
            reveal_strlit("Large");
            reveal_strlit("HighVortexLarge");
            reveal_strlit("Heavy");
            reveal_strlit("HighPerformance");
            reveal_strlit("Rotorcraft");
            reveal_strlit("Glider");
            reveal_strlit("LighterThanAir");
            reveal_strlit("Parachutist");
            reveal_strlit("Ultralight");
            assert("NoADSB"@.len() == 6);
            assert("Light"@.len() == 5);
            assert("Small"@.len() == 5);
            assert("Large"@.len() == 5);
            assert("HighVortexLarge"@.len() == 15);
            assert("Heavy"@.len() == 5);
            assert("HighPerformance"@.len() == 15);
            assert("Rotorcraft"@.len() == 10);
            assert("Glider"@.len() == 6);
            assert("LighterThanAir"@.len() == 14);
            assert("Parachutist"@.len() == 11);
            assert("Ultralight"@.len() == 10);
            assert("Ultralight"@[0] != "Rotorcraft"@[0]);
            assert("Ultralight"@ != "Rotorcraft"@);
        },
        AirCraftCategory::Reserved => {
            reveal_strlit("NoADSB");
            reveal_strlit("Light");
            reveal_strlit("Small");
            reveal_strlit("Large");
            reveal_strlit("HighVortexLarge");
            reveal_strlit("Heavy");
            reveal_strlit("HighPerformance");
            reveal_strlit("Rotorcraft");
            reveal_strlit("Glider");
            reveal_strlit("LighterThanAir");
            reveal_strlit("Parachutist");
            reveal_strlit("Ultralight");
            reveal_strlit("Reserved");
            assert("NoADSB"@.len() == 6);
            assert("Light"@.len() == 5);
            assert("Small"@.len() == 5);
            assert("Large"@.len() == 5);
            assert("HighVortexLarge"@.len() == 15);
            assert("Heavy"@.len() == 5);
            assert("HighPerformance"@.len() == 15);
            assert("Rotorcraft"@.len() == 10);
            assert("Glider"@.len() == 6);
            assert("LighterThanAir"@.len() == 14);
            assert("Parachutist"@.len() == 11);
            assert("Ultralight"@.len() == 10);
            assert("Reserved"@.len() == 8);
        },
        AirCraftCategory::UAV => {
            reveal_strlit("NoADSB");
            reveal_strlit("Light");
            reveal_strlit("Small");
            reveal_strlit("Large");
            reveal_strlit("HighVortexLarge");
            reveal_strlit("Heavy");
            reveal_strlit("HighPerformance");
            reveal_strlit("Rotorcraft");
            reveal_strlit("Glider");
            reveal_strlit("LighterThanAir");
            reveal_strlit("Parachutist");
            reveal_strlit("Ultralight");
            reveal_strlit("Reserved");
            reveal_strlit("UAV");
            assert("NoADSB"@.len() == 6);
            assert("Light"@.len() == 5);
            assert("Small"@.len() == 5);
            assert("Large"@.len() == 5);
            assert("HighVortexLarge"@.len() == 15);
            assert("Heavy"@.len() == 5);
            assert("HighPerformance"@.len() == 15);
            assert("Rotorcraft"@.len() == 10);
            assert("Glider"@.len() == 6);
            assert("LighterThanAir"@.len() == 14);
            assert("Parachutist"@.len() == 11);
            assert("Ultralight"@.len() == 10);
            assert("Reserved"@.len() == 8);
            assert("UAV"@.len() == 3);
        },
        AirCraftCategory::Space => {
            reveal_strlit("NoADSB");
            reveal_strlit("Light");
            reveal_strlit("Small");
            reveal_strlit("Large");
            reveal_strlit("HighVortexLarge");
            reveal_strlit("Heavy");
            reveal_strlit("HighPerformance");
            reveal_strlit("Rotorcraft");
            reveal_strlit("Glider");
            reveal_strlit("LighterThanAir");
            reveal_strlit("Parachutist");
            reveal_strlit("Ultralight");
            reveal_strlit("Reserved");
            reveal_strlit("UAV");
            reveal_strlit("Space");
            assert("NoADSB"@.len() == 6);
            assert("Light"@.len() == 5);
            assert("Small"@.len() == 5);
            assert("Large"@.len() == 5);
            assert("HighVortexLarge"@.len() == 15);
            assert("Heavy"@.len() == 5);
            assert("HighPerformance"@.len() == 15);
            assert("Rotorcraft"@.len() == 10);
            assert("Glider"@.len() == 6);
            assert("LighterThanAir"@.len() == 14);
            assert("Parachutist"@.len() == 11);
            assert("Ultralight"@.len() == 10);
            assert("Reserved"@.len() == 8);
            assert("UAV"@.len() == 3);
            assert("Space"@.len() == 5);
            assert("Space"@[0] != "Light"@[0]);
            assert("Space"@ != "Light"@);
            assert("Space"@[1] != "Small"@[1]);
            assert("Space"@ != "Small"@);
            assert("Space"@[0] != "Large"@[0]);
            assert("Space"@ != "Large"@);
            assert("Space"@[0] != "Heavy"@[0]);
            assert("Space"@ != "Heavy"@);
        },
        AirCraftCategory::SurfaceEmergency => {
            reveal_strlit("NoADSB");
            reveal_strlit("Light");
            reveal_strlit("Small");
            reveal_strlit("Large");
            reveal_strlit("HighVortexLarge");
            reveal_strlit("Heavy");
            reveal_strlit("HighPerformance");
            reveal_strlit("Rotorcraft");
            reveal_strlit("Glider");
            reveal_strlit("LighterThanAir");
            reveal_strlit("Parachutist");
            reveal_strlit("Ultralight");
            reveal_strlit("Reserved");
            reveal_strlit("UAV");
            reveal_strlit("Space");
            reveal_strlit("SurfaceEmergency");
            assert("NoADSB"@.len() == 6);
            assert("Light"@.len() == 5);
            assert("Small"@.len() == 5);
            assert("Large"@.len() == 5);
            assert("HighVortexLarge"@.len() == 15);
            assert("Heavy"@.len() == 5);
            assert("HighPerformance"@.len() == 15);
            assert("Rotorcraft"@.len() == 10);
            assert("Glider"@.len() == 6);
            assert("LighterThanAir"@.len() == 14);
            assert("Parachutist"@.len() == 11);
            assert("Ultralight"@.len() == 10);
            assert("Reserved"@.len() == 8);
            assert("UAV"@.len() == 3);
            assert("Space"@.len() == 5);
            assert("SurfaceEmergency"@.len() == 16);
        },
        AirCraftCategory::SurfaceService => {
            reveal_strlit("NoADSB");
            reveal_strlit("Light");
            reveal_strlit("Small");
            reveal_strlit("Large");
            reveal_strlit("HighVortexLarge");
            reveal_strlit("Heavy");
            reveal_strlit("HighPerformance");
            reveal_strlit("Rotorcraft");
            reveal_strlit("Glider");
            reveal_strlit("LighterThanAir");
            reveal_strlit("Parachutist");
            reveal_strlit("Ultralight");
            reveal_strlit("Reserved");
            reveal_strlit("UAV");
            reveal_strlit("Space");
            reveal_strlit("SurfaceEmergency");
            reveal_strlit("SurfaceService");
            assert("NoADSB"@.len() == 6);
            assert("Light"@.len() == 5);
            assert("Small"@.len() == 5);
            assert("Large"@.len() == 5);
            assert("HighVortexLarge"@.len() == 15);
            assert("Heavy"@.len() == 5);
            assert("HighPerformance"@.len() == 15);
            assert("Rotorcraft"@.len() == 10);
            assert("Glider"@.len() == 6);
            assert("LighterThanAir"@.len() == 14);
            assert("Parachutist"@.len() == 11);
            assert("Ultralight"@.len() == 10);
            assert("Reserved"@.len() == 8);
            assert("UAV"@.len() == 3);
            assert("Space"@.len() == 5);
            assert("SurfaceEmergency"@.len() == 16);
            assert("SurfaceService"@.len() == 14);
            assert("SurfaceService"@[0] != "LighterThanAir"@[0]);
            assert("SurfaceService"@ != "LighterThanAir"@);
        },
        AirCraftCategory::PointObstacle => {
            reveal_strlit("NoADSB");
            reveal_strlit("Light");
            reveal_strlit("Small");
            reveal_strlit("Large");
            reveal_strlit("HighVortexLarge");
            reveal_strlit("Heavy");
            reveal_strlit("HighPerformance");
            reveal_strlit("Rotorcraft");
            reveal_strlit("Glider");
            reveal_strlit("LighterThanAir");
            reveal_strlit("Parachutist");
            reveal_strlit("Ultralight");
            reveal_strlit("Reserved");
            reveal_strlit("UAV");
            reveal_strlit("Space");
            reveal_strlit("SurfaceEmergency");
            reveal_strlit("SurfaceService");
            reveal_strlit("PointObstacle");
            assert("NoADSB"@.len() == 6);
            assert("Light"@.len() == 5);
            assert("Small"@.len() == 5);
            assert("Large"@.len() == 5);
            assert("HighVortexLarge"@.len() == 15);
            assert("Heavy"@.len() == 5);
            assert("HighPerformance"@.len() == 15);
            assert("Rotorcraft"@.len() == 10);
            assert("Glider"@.len() == 6);
            assert("LighterThanAir"@.len() == 14);
            assert("Parachutist"@.len() == 11);
            assert("Ultralight"@.len() == 10);
            assert("Reserved"@.len() == 8);
            assert("UAV"@.len() == 3);
            assert("Space"@.len() == 5);
            assert("SurfaceEmergency"@.len() == 16);
            assert("SurfaceService"@.len() == 14);
            assert("PointObstacle"@.len() == 13);
        },
        AirCraftCategory::ClusterObstacle => {
            reveal_strlit("NoADSB");
            reveal_strlit("Light");
            reveal_strlit("Small");
            reveal_strlit("Large");
            reveal_strlit("HighVortexLarge");
            reveal_strlit("Heavy");
            reveal_strlit("HighPerformance");
            reveal_strlit("Rotorcraft");
            reveal_strlit("Glider");
            reveal_strlit("LighterThanAir");
            reveal_strlit("Parachutist");
            reveal_strlit("Ultralight");
            reveal_strlit("Reserved");
            reveal_strlit("UAV");
            reveal_strlit("Space");
            reveal_strlit("SurfaceEmergency");
            reveal_strlit("SurfaceService");
            reveal_strlit("PointObstacle");
            reveal_strlit("ClusterObstacle");
            assert("NoADSB"@.len() == 6);
            assert("Light"@.len() == 5);
            assert("Small"@.len() == 5);
            assert("Large"@.len() == 5);
            assert("HighVortexLarge"@.len() == 15);
            assert("Heavy"@.len() == 5);
            assert("HighPerformance"@.len() == 15);
            assert("Rotorcraft"@.len() == 10);
            assert("Glider"@.len() == 6);
            assert("LighterThanAir"@.len() == 14);
            assert("Parachutist"@.len() == 11);
            assert("Ultralight"@.len() == 10);
            assert("Reserved"@.len() == 8);
            assert("UAV"@.len() == 3);
            assert("Space"@.len() == 5);
            assert("SurfaceEmergency"@.len() == 16);
            assert("SurfaceService"@.len() == 14);
            assert("PointObstacle"@.len() == 13);
            assert("ClusterObstacle"@.len() == 15);
            assert("ClusterObstacle"@[0] != "HighVortexLarge"@[0]);
            assert("ClusterObstacle"@ != "HighVortexLarge"@);
            assert("ClusterObstacle"@[0] != "HighPerformance"@[0]);
            assert("ClusterObstacle"@ != "HighPerformance"@);
        },
        AirCraftCategory::LineObstacle => {
            reveal_strlit("NoADSB");
            reveal_strlit("Light");
            reveal_strlit("Small");
            reveal_strlit("Large");
            reveal_strlit("HighVortexLarge");
            reveal_strlit("Heavy");
            reveal_strlit("HighPerformance");
            reveal_strlit("Rotorcraft");
            reveal_strlit("Glider");
            reveal_strlit("LighterThanAir");
            reveal_strlit("Parachutist");
            reveal_strlit("Ultralight");
            reveal_strlit("Reserved");
            reveal_strlit("UAV");
            reveal_strlit("Space");
            reveal_strlit("SurfaceEmergency");
            reveal_strlit("SurfaceService");
            reveal_strlit("PointObstacle");
            reveal_strlit("ClusterObstacle");
            reveal_strlit("LineObstacle");
            assert("NoADSB"@.len() == 6);
            assert("Light"@.len() == 5);
            assert("Small"@.len() == 5);
            assert("Large"@.len() == 5);
            assert("HighVortexLarge"@.len() == 15);
            assert("Heavy"@.len() == 5);
            assert("HighPerformance"@.len() == 15);
            assert("Rotorcraft"@.len() == 10);
            assert("Glider"@.len() == 6);
            assert("LighterThanAir"@.len() == 14);
            assert("Parachutist"@.len() == 11);
            assert("Ultralight"@.len() == 10);
            assert("Reserved"@.len() == 8);
            assert("UAV"@.len() == 3);
            assert("Space"@.len() == 5);
            assert("SurfaceEmergency"@.len() == 16);
            assert("SurfaceService"@.len() == 14);
            assert("PointObstacle"@.len() == 13);
            assert("ClusterObstacle"@.len() == 15);
            assert("LineObstacle"@.len() == 12);
        },
    }
}


// ---------------------------------------------------------------------------
// Wire codecs for the enumerated fields.
// ---------------------------------------------------------------------------
/// What the position-source element decodes to: an integer ordinal or a name
/// string, with the recognition flag; any other JSON type refuses.
pub open spec fn spec_ps_from_wire(v: JsonV) -> Option<(PositionSource, bool)> {
    match v {
        JsonV::Num(NumberV::Uint(u)) => Some(
            (PositionSource::spec_from_ordinal(u), PositionSource::spec_known_ordinal(u)),
        ),
        JsonV::Str(s) => Some(
            (PositionSource::spec_from_name(s), PositionSource::spec_known_name(s)),
        ),
        _ => None,
    }
}

/// What the optional category element decodes to: wire null is "no value",
/// an ordinal or a name decodes through the codec.
pub open spec fn spec_cat_from_wire(v: JsonV) -> Option<(Option<AirCraftCategory>, bool)> {
    match v {
        JsonV::Null => Some((None, true)),
        JsonV::Num(NumberV::Uint(u)) => Some(
            (
                Some(AirCraftCategory::spec_from_ordinal(u)),
                AirCraftCategory::spec_known_ordinal(u),
            ),
        ),
        JsonV::Str(s) => Some(
            (Some(AirCraftCategory::spec_from_name(s)), AirCraftCategory::spec_known_name(s)),
        ),
        _ => None,
    }
}

impl PositionSource {
    /// Whether a name string is a known variant name.
    pub fn known_name(s: &str) -> (r: bool)
        ensures
            r == Self::spec_known_name(s@),
    {
        str_eq(s, "ADSB") || str_eq(s, "ASTERIX") || str_eq(s, "MLAT") || str_eq(s, "FLARM")
    }

    /// Decodes the wire value of the position-source element; `None` refuses
    /// the JSON type, the flag reports whether the value was recognized.
    pub fn from_wire(v: &JsonValue) -> (r: Option<(PositionSource, bool)>)
        ensures
            r == spec_ps_from_wire(v@),
    {
        match v {
            JsonValue::Num(JsonNumber::Uint(u)) => Some(
                (PositionSource::from_ordinal(*u), *u <= 3),
            ),
            JsonValue::Str(s) => Some(
                (PositionSource::from_name(s.as_str()), PositionSource::known_name(s.as_str())),
            ),
            _ => None,
        }
    }
}

impl AirCraftCategory {
    /// Whether a name string is a known variant name.
    pub fn known_name(s: &str) -> (r: bool)
        ensures
            r == Self::spec_known_name(s@),
    {
        str_eq(s, "NoInformation") || str_eq(s, "NoADSB") || str_eq(s, "Light") || str_eq(
            s,
            "Small",
        ) || str_eq(s, "Large") || str_eq(s, "HighVortexLarge") || str_eq(s, "Heavy") || str_eq(
            s,
            "HighPerformance",
        ) || str_eq(s, "Rotorcraft") || str_eq(s, "Glider") || str_eq(s, "LighterThanAir")
            || str_eq(s, "Parachutist") || str_eq(s, "Ultralight") || str_eq(s, "Reserved")
            || str_eq(s, "UAV") || str_eq(s, "Space") || str_eq(s, "SurfaceEmergency") || str_eq(
            s,
            "SurfaceService",
        ) || str_eq(s, "PointObstacle") || str_eq(s, "ClusterObstacle") || str_eq(
            s,
            "LineObstacle",
        )
    }

    /// Decodes the wire value of the optional category element.
    pub fn from_wire_opt(v: &JsonValue) -> (r: Option<(Option<AirCraftCategory>, bool)>)
        ensures
            r == spec_cat_from_wire(v@),
    {
        match v {
            JsonValue::Null => Some((None, true)),
            JsonValue::Num(JsonNumber::Uint(u)) => Some(
                (Some(AirCraftCategory::from_ordinal(*u)), *u <= 20),
            ),
            JsonValue::Str(s) => Some(
                (
                    Some(AirCraftCategory::from_name(s.as_str())),
                    AirCraftCategory::known_name(s.as_str()),
                ),
            ),
            _ => None,
        }
    }
}


// ---------------------------------------------------------------------------
// The state vector record and its positional decoder.
// ---------------------------------------------------------------------------
/// Represents a state vector of an aircraft.
///
/// Numeric measurements (coordinates, altitudes, speeds) are kept exactly as
/// they stood on the wire, as [`JsonNumber`] values, so decoding never loses
/// precision and the canonical re-encoding is character-exact.
#[derive(Debug, PartialEq)]
pub struct StateVector {
    /// Unique ICAO 24-bit address of the transponder, as a hex string.
    pub icao24: String,
    /// Callsign of the vehicle (8 chars); absent if none was received.
    pub callsign: Option<String>,
    /// Country name inferred from the ICAO 24-bit address.
    pub origin_country: String,
    /// Unix timestamp (seconds) of the last position update.
    pub time_position: Option<u64>,
    /// Unix timestamp (seconds) of the last update in general.
    pub last_contact: u64,
    /// WGS-84 longitude in decimal degrees, kept wire-exact.
    pub longitude: Option<JsonNumber>,
    /// WGS-84 latitude in decimal degrees, kept wire-exact.
    pub latitude: Option<JsonNumber>,
    /// Barometric altitude in meters, kept wire-exact.
    pub baro_altitude: Option<JsonNumber>,
    /// Whether the position came from a surface position report.
    pub on_ground: bool,
    /// Velocity over ground in m/s, kept wire-exact.
    pub velocity: Option<JsonNumber>,
    /// True track in decimal degrees clockwise from north.
    pub true_track: Option<JsonNumber>,
    /// Vertical rate in m/s; negative means descending.
    pub vertical_rate: Option<JsonNumber>,
    /// IDs of the receivers which contributed to this state vector.
    pub sensors: Option<Vec<u64>>,
    /// Geometric altitude in meters, kept wire-exact.
    pub geo_altitude: Option<JsonNumber>,
    /// The transponder code.
    pub squawk: Option<String>,
    /// Whether the flight status indicates the special purpose indicator.
    pub spi: bool,
    /// Origin of this state's position report.
    pub position_source: PositionSource,
    /// Aircraft category; absent in the short wire form.
    pub category: Option<AirCraftCategory>,
}

/// The mathematical view of a [`StateVector`].
pub struct StateVectorV {
    pub icao24: Seq<char>,
    pub callsign: Option<Seq<char>>,
    pub origin_country: Seq<char>,
    pub time_position: Option<u64>,
    pub last_contact: u64,
    pub longitude: Option<NumberV>,
    pub latitude: Option<NumberV>,
    pub baro_altitude: Option<NumberV>,
    pub on_ground: bool,
    pub velocity: Option<NumberV>,
    pub true_track: Option<NumberV>,
    pub vertical_rate: Option<NumberV>,
    pub sensors: Option<Seq<u64>>,
    pub geo_altitude: Option<NumberV>,
    pub squawk: Option<Seq<char>>,
    pub spi: bool,
    pub position_source: PositionSource,
    pub category: Option<AirCraftCategory>,
}

impl View for StateVector {
    type V = StateVectorV;

    open spec fn view(&self) -> StateVectorV {
        StateVectorV {
            icao24: self.icao24@,
            callsign: vopt_str(self.callsign),
            origin_country: self.origin_country@,
            time_position: self.time_position,
            last_contact: self.last_contact,
            longitude: vopt_num(self.longitude),
            latitude: vopt_num(self.latitude),
            baro_altitude: vopt_num(self.baro_altitude),
            on_ground: self.on_ground,
            velocity: vopt_num(self.velocity),
            true_track: vopt_num(self.true_track),
            vertical_rate: vopt_num(self.vertical_rate),
            sensors: vopt_u64s(self.sensors),
            geo_altitude: vopt_num(self.geo_altitude),
            squawk: vopt_str(self.squawk),
            spi: self.spi,
            position_source: self.position_source,
            category: self.category,
        }
    }
}

/// One state vector decoded from its positional array form. `has_category`
/// selects the schema shape: the long form has 18 elements with the category
/// at the tail, the short form exactly 17 without it. The boolean result is
/// the enumerated-value fallback flag: true when an unrecognized position
/// source or category was silently replaced by its documented default.
pub open spec fn spec_decode_sv(e: Seq<JsonV>, has_category: bool) -> Result<
    (StateVectorV, bool),
    FormError,
> {
    if e.len() != (if has_category { 18int } else { 17int }) {
        Err(FormError::WrongLength { observed: e.len() as usize })
    } else if spec_as_str(e[0]) is None {
        Err(FormError::WrongType(FieldId::Icao24))
    } else if spec_as_opt_str(e[1]) is None {
        Err(FormError::WrongType(FieldId::Callsign))
    } else if spec_as_str(e[2]) is None {
        Err(FormError::WrongType(FieldId::OriginCountry))
    } else if spec_as_opt_u64(e[3]) is None {
        Err(FormError::WrongType(FieldId::TimePosition))
    } else if spec_as_u64(e[4]) is None {
        Err(FormError::WrongType(FieldId::LastContact))
    } else if spec_as_opt_num(e[5]) is None {
        Err(FormError::WrongType(FieldId::Longitude))
    } else if spec_as_opt_num(e[6]) is None {
        Err(FormError::WrongType(FieldId::Latitude))
    } else if spec_as_opt_num(e[7]) is None {
        Err(FormError::WrongType(FieldId::BaroAltitude))
    } else if spec_as_bool(e[8]) is None {
        Err(FormError::WrongType(FieldId::OnGround))
    } else if spec_as_opt_num(e[9]) is None {
        Err(FormError::WrongType(FieldId::Velocity))
    } else if spec_as_opt_num(e[10]) is None {
        Err(FormError::WrongType(FieldId::TrueTrack))
    } else if spec_as_opt_num(e[11]) is None {
        Err(FormError::WrongType(FieldId::VerticalRate))
    } else if spec_as_opt_u64_seq(e[12]) is None {
        Err(FormError::WrongType(FieldId::Sensors))
    } else if spec_as_opt_num(e[13]) is None {
        Err(FormError::WrongType(FieldId::GeoAltitude))
    } else if spec_as_opt_str(e[14]) is None {
        Err(FormError::WrongType(FieldId::Squawk))
    } else if spec_as_bool(e[15]) is None {
        Err(FormError::WrongType(FieldId::Spi))
    } else if spec_ps_from_wire(e[16]) is None {
        Err(FormError::WrongType(FieldId::PositionSource))
    } else if has_category && spec_cat_from_wire(e[17]) is None {
        Err(FormError::WrongType(FieldId::Category))
    } else {
        let (ps, ps_known) = spec_ps_from_wire(e[16])->Some_0;
        let (cat, cat_known) = if has_category {
            spec_cat_from_wire(e[17])->Some_0
        } else {
            (None, true)
        };
        Ok(
            (
                StateVectorV {
                    icao24: spec_as_str(e[0])->Some_0,
                    callsign: spec_as_opt_str(e[1])->Some_0,
                    origin_country: spec_as_str(e[2])->Some_0,
                    time_position: spec_as_opt_u64(e[3])->Some_0,
                    last_contact: spec_as_u64(e[4])->Some_0,
                    longitude: spec_as_opt_num(e[5])->Some_0,
                    latitude: spec_as_opt_num(e[6])->Some_0,
                    baro_altitude: spec_as_opt_num(e[7])->Some_0,
                    on_ground: spec_as_bool(e[8])->Some_0,
                    velocity: spec_as_opt_num(e[9])->Some_0,
                    true_track: spec_as_opt_num(e[10])->Some_0,
                    vertical_rate: spec_as_opt_num(e[11])->Some_0,
                    sensors: spec_as_opt_u64_seq(e[12])->Some_0,
                    geo_altitude: spec_as_opt_num(e[13])->Some_0,
                    squawk: spec_as_opt_str(e[14])->Some_0,
                    spi: spec_as_bool(e[15])->Some_0,
                    position_source: ps,
                    category: cat,
                },
                !ps_known || !cat_known,
            ),
        )
    }
}

/// Decodes one state vector from its positional array form.
pub fn decode_state_vector_array(arr: &Vec<JsonValue>, has_category: bool) -> (r: Result<
    (StateVector, bool),
    FormError,
>)
    ensures
        match r {
            Ok((sv, warn)) => spec_decode_sv(json_view_seq(arr@), has_category) == Ok::<
                _,
                FormError,
            >((sv@, warn)),
            Err(e) => spec_decode_sv(json_view_seq(arr@), has_category) == Err::<
                (StateVectorV, bool),
                _,
            >(e),
        },
{
    proof {
        crate::json::lemma_json_view_seq(arr@);
    }
    let expected: usize = if has_category {
        18
    } else {
        17
    };
    if arr.len() != expected {
        return Err(FormError::WrongLength { observed: arr.len() });
    }
    let icao24 = match crate::json::value_string(&arr[0]) {
        Some(x) => x,
        None => {
            return Err(FormError::WrongType(FieldId::Icao24));
        },
    };
    let callsign = match crate::json::value_opt_string(&arr[1]) {
        Some(x) => x,
        None => {
            return Err(FormError::WrongType(FieldId::Callsign));
        },
    };
    let origin_country = match crate::json::value_string(&arr[2]) {
        Some(x) => x,
        None => {
            return Err(FormError::WrongType(FieldId::OriginCountry));
        },
    };
    let time_position = match crate::json::value_opt_u64(&arr[3]) {
        Some(x) => x,
        None => {
            return Err(FormError::WrongType(FieldId::TimePosition));
        },
    };
    let last_contact = match crate::json::value_u64(&arr[4]) {
        Some(x) => x,
        None => {
            return Err(FormError::WrongType(FieldId::LastContact));
        },
    };
    let longitude = match crate::json::value_opt_num(&arr[5]) {
        Some(x) => x,
        None => {
            return Err(FormError::WrongType(FieldId::Longitude));
        },
    };
    let latitude = match crate::json::value_opt_num(&arr[6]) {
        Some(x) => x,
        None => {
            return Err(FormError::WrongType(FieldId::Latitude));
        },
    };
    let baro_altitude = match crate::json::value_opt_num(&arr[7]) {
        Some(x) => x,
        None => {
            return Err(FormError::WrongType(FieldId::BaroAltitude));
        },
    };
    let on_ground = match crate::json::value_bool(&arr[8]) {
        Some(x) => x,
        None => {
            return Err(FormError::WrongType(FieldId::OnGround));
        },
    };
    let velocity = match crate::json::value_opt_num(&arr[9]) {
        Some(x) => x,
        None => {
            return Err(FormError::WrongType(FieldId::Velocity));
        },
    };
    let true_track = match crate::json::value_opt_num(&arr[10]) {
        Some(x) => x,
        None => {
            return Err(FormError::WrongType(FieldId::TrueTrack));
        },
    };
    let vertical_rate = match crate::json::value_opt_num(&arr[11]) {
        Some(x) => x,
        None => {
            return Err(FormError::WrongType(FieldId::VerticalRate));
        },
    };
    let sensors = match crate::json::value_opt_u64_list(&arr[12]) {
        Some(x) => x,
        None => {
            return Err(FormError::WrongType(FieldId::Sensors));
        },
    };
    let geo_altitude = match crate::json::value_opt_num(&arr[13]) {
        Some(x) => x,
        None => {
            return Err(FormError::WrongType(FieldId::GeoAltitude));
        },
    };
    let squawk = match crate::json::value_opt_string(&arr[14]) {
        Some(x) => x,
        None => {
            return Err(FormError::WrongType(FieldId::Squawk));
        },
    };
    let spi = match crate::json::value_bool(&arr[15]) {
        Some(x) => x,
        None => {
            return Err(FormError::WrongType(FieldId::Spi));
        },
    };
    let (position_source, ps_known) = match PositionSource::from_wire(&arr[16]) {
        Some(p) => p,
        None => {
            return Err(FormError::WrongType(FieldId::PositionSource));
        },
    };
    let (category, cat_known) = if has_category {
        match AirCraftCategory::from_wire_opt(&arr[17]) {
            Some(c) => c,
            None => {
                return Err(FormError::WrongType(FieldId::Category));
            },
        }
    } else {
        (None, true)
    };
    let sv = StateVector {
        icao24,
        callsign,
        origin_country,
        time_position,
        last_contact,
        longitude,
        latitude,
        baro_altitude,
        on_ground,
        velocity,
        true_track,
        vertical_rate,
        sensors,
        geo_altitude,
        squawk,
        spi,
        position_source,
        category,
    };
    Ok((sv, !ps_known || !cat_known))
}

/// One state vector decoded from its keyed object form. Every key must be
/// present (wire null marks an absent optional value); this shape always
/// carries the category key.
pub open spec fn spec_decode_sv_obj(f: Seq<(Seq<char>, JsonV)>) -> Result<
    (StateVectorV, bool),
    FormError,
> {
    if false {
        Err(FormError::NotAnObject)
    } else if spec_obj_get(f, "icao24"@) is None {
        Err(FormError::MissingField(FieldId::Icao24))
    } else if spec_as_str(spec_obj_get(f, "icao24"@)->Some_0) is None {
        Err(FormError::WrongType(FieldId::Icao24))
    } else if spec_obj_get(f, "callsign"@) is None {
        Err(FormError::MissingField(FieldId::Callsign))
    } else if spec_as_opt_str(spec_obj_get(f, "callsign"@)->Some_0) is None {
        Err(FormError::WrongType(FieldId::Callsign))
    } else if spec_obj_get(f, "origin_country"@) is None {
        Err(FormError::MissingField(FieldId::OriginCountry))
    } else if spec_as_str(spec_obj_get(f, "origin_country"@)->Some_0) is None {
        Err(FormError::WrongType(FieldId::OriginCountry))
    } else if spec_obj_get(f, "time_position"@) is None {
        Err(FormError::MissingField(FieldId::TimePosition))
    } else if spec_as_opt_u64(spec_obj_get(f, "time_position"@)->Some_0) is None {
        Err(FormError::WrongType(FieldId::TimePosition))
    } else if spec_obj_get(f, "last_contact"@) is None {
        Err(FormError::MissingField(FieldId::LastContact))
    } else if spec_as_u64(spec_obj_get(f, "last_contact"@)->Some_0) is None {
        Err(FormError::WrongType(FieldId::LastContact))
    } else if spec_obj_get(f, "longitude"@) is None {
        Err(FormError::MissingField(FieldId::Longitude))
    } else if spec_as_opt_num(spec_obj_get(f, "longitude"@)->Some_0) is None {
        Err(FormError::WrongType(FieldId::Longitude))
    } else if spec_obj_get(f, "latitude"@) is None {
        Err(FormError::MissingField(FieldId::Latitude))
    } else if spec_as_opt_num(spec_obj_get(f, "latitude"@)->Some_0) is None {
        Err(FormError::WrongType(FieldId::Latitude))
    } else if spec_obj_get(f, "baro_altitude"@) is None {
        Err(FormError::MissingField(FieldId::BaroAltitude))
    } else if spec_as_opt_num(spec_obj_get(f, "baro_altitude"@)->Some_0) is None {
        Err(FormError::WrongType(FieldId::BaroAltitude))
    } else if spec_obj_get(f, "on_ground"@) is None {
        Err(FormError::MissingField(FieldId::OnGround))
    } else if spec_as_bool(spec_obj_get(f, "on_ground"@)->Some_0) is None {
        Err(FormError::WrongType(FieldId::OnGround))
    } else if spec_obj_get(f, "velocity"@) is None {
        Err(FormError::MissingField(FieldId::Velocity))
    } else if spec_as_opt_num(spec_obj_get(f, "velocity"@)->Some_0) is None {
        Err(FormError::WrongType(FieldId::Velocity))
    } else if spec_obj_get(f, "true_track"@) is None {
        Err(FormError::MissingField(FieldId::TrueTrack))
    } else if spec_as_opt_num(spec_obj_get(f, "true_track"@)->Some_0) is None {
        Err(FormError::WrongType(FieldId::TrueTrack))
    } else if spec_obj_get(f, "vertical_rate"@) is None {
        Err(FormError::MissingField(FieldId::VerticalRate))
    } else if spec_as_opt_num(spec_obj_get(f, "vertical_rate"@)->Some_0) is None {
        Err(FormError::WrongType(FieldId::VerticalRate))
    } else if spec_obj_get(f, "sensors"@) is None {
        Err(FormError::MissingField(FieldId::Sensors))
    } else if spec_as_opt_u64_seq(spec_obj_get(f, "sensors"@)->Some_0) is None {
        Err(FormError::WrongType(FieldId::Sensors))
    } else if spec_obj_get(f, "geo_altitude"@) is None {
        Err(FormError::MissingField(FieldId::GeoAltitude))
    } else if spec_as_opt_num(spec_obj_get(f, "geo_altitude"@)->Some_0) is None {
        Err(FormError::WrongType(FieldId::GeoAltitude))
    } else if spec_obj_get(f, "squawk"@) is None {
        Err(FormError::MissingField(FieldId::Squawk))
    } else if spec_as_opt_str(spec_obj_get(f, "squawk"@)->Some_0) is None {
        Err(FormError::WrongType(FieldId::Squawk))
    } else if spec_obj_get(f, "spi"@) is None {
        Err(FormError::MissingField(FieldId::Spi))
    } else if spec_as_bool(spec_obj_get(f, "spi"@)->Some_0) is None {
        Err(FormError::WrongType(FieldId::Spi))
    } else if spec_obj_get(f, "position_source"@) is None {
        Err(FormError::MissingField(FieldId::PositionSource))
    } else if spec_ps_from_wire(spec_obj_get(f, "position_source"@)->Some_0) is None {
        Err(FormError::WrongType(FieldId::PositionSource))
    } else if spec_obj_get(f, "category"@) is None {
        Err(FormError::MissingField(FieldId::Category))
    } else if spec_cat_from_wire(spec_obj_get(f, "category"@)->Some_0) is None {
        Err(FormError::WrongType(FieldId::Category))
    } else {
        let (ps, ps_known) = spec_ps_from_wire(spec_obj_get(f, "position_source"@)->Some_0)->Some_0;
        let (cat, cat_known) = spec_cat_from_wire(spec_obj_get(f, "category"@)->Some_0)->Some_0;
        Ok(
            (
                StateVectorV {
                    icao24: spec_as_str(spec_obj_get(f, "icao24"@)->Some_0)->Some_0,
                    callsign: spec_as_opt_str(spec_obj_get(f, "callsign"@)->Some_0)->Some_0,
                    origin_country: spec_as_str(spec_obj_get(f, "origin_country"@)->Some_0)->Some_0,
                    time_position: spec_as_opt_u64(spec_obj_get(f, "time_position"@)->Some_0)->Some_0,
                    last_contact: spec_as_u64(spec_obj_get(f, "last_contact"@)->Some_0)->Some_0,
                    longitude: spec_as_opt_num(spec_obj_get(f, "longitude"@)->Some_0)->Some_0,
                    latitude: spec_as_opt_num(spec_obj_get(f, "latitude"@)->Some_0)->Some_0,
                    baro_altitude: spec_as_opt_num(spec_obj_get(f, "baro_altitude"@)->Some_0)->Some_0,
                    on_ground: spec_as_bool(spec_obj_get(f, "on_ground"@)->Some_0)->Some_0,
                    velocity: spec_as_opt_num(spec_obj_get(f, "velocity"@)->Some_0)->Some_0,
                    true_track: spec_as_opt_num(spec_obj_get(f, "true_track"@)->Some_0)->Some_0,
                    vertical_rate: spec_as_opt_num(spec_obj_get(f, "vertical_rate"@)->Some_0)->Some_0,
                    sensors: spec_as_opt_u64_seq(spec_obj_get(f, "sensors"@)->Some_0)->Some_0,
                    geo_altitude: spec_as_opt_num(spec_obj_get(f, "geo_altitude"@)->Some_0)->Some_0,
                    squawk: spec_as_opt_str(spec_obj_get(f, "squawk"@)->Some_0)->Some_0,
                    spi: spec_as_bool(spec_obj_get(f, "spi"@)->Some_0)->Some_0,
                    position_source: ps,
                    category: cat,
                },
                !ps_known || !cat_known,
            ),
        )
    }
}

/// Decodes one state vector from its keyed object form.
pub fn decode_state_vector_object(fields: &Vec<(String, JsonValue)>) -> (r: Result<
    (StateVector, bool),
    FormError,
>)
    ensures
        match r {
            Ok((sv, warn)) => spec_decode_sv_obj(json_view_fields(fields@)) == Ok::<
                _,
                FormError,
            >((sv@, warn)),
            Err(e) => spec_decode_sv_obj(json_view_fields(fields@)) == Err::<
                (StateVectorV, bool),
                _,
            >(e),
        },
{
    let icao24 = match crate::json::obj_get(fields, "icao24") {
        None => {
            return Err(FormError::MissingField(FieldId::Icao24));
        },
        Some(w) => match crate::json::value_string(w) {
            Some(x) => x,
            None => {
                return Err(FormError::WrongType(FieldId::Icao24));
            },
        },
    };
    let callsign = match crate::json::obj_get(fields, "callsign") {
        None => {
            return Err(FormError::MissingField(FieldId::Callsign));
        },
        Some(w) => match crate::json::value_opt_string(w) {
            Some(x) => x,
            None => {
                return Err(FormError::WrongType(FieldId::Callsign));
            },
        },
    };
    let origin_country = match crate::json::obj_get(fields, "origin_country") {
        None => {
            return Err(FormError::MissingField(FieldId::OriginCountry));
        },
        Some(w) => match crate::json::value_string(w) {
            Some(x) => x,
            None => {
                return Err(FormError::WrongType(FieldId::OriginCountry));
            },
        },
    };
    let time_position = match crate::json::obj_get(fields, "time_position") {
        None => {
            return Err(FormError::MissingField(FieldId::TimePosition));
        },
        Some(w) => match crate::json::value_opt_u64(w) {
            Some(x) => x,
            None => {
                return Err(FormError::WrongType(FieldId::TimePosition));
            },
        },
    };
    let last_contact = match crate::json::obj_get(fields, "last_contact") {
        None => {
            return Err(FormError::MissingField(FieldId::LastContact));
        },
        Some(w) => match crate::json::value_u64(w) {
            Some(x) => x,
            None => {
                return Err(FormError::WrongType(FieldId::LastContact));
            },
        },
    };
    let longitude = match crate::json::obj_get(fields, "longitude") {
        None => {
            return Err(FormError::MissingField(FieldId::Longitude));
        },
        Some(w) => match crate::json::value_opt_num(w) {
            Some(x) => x,
            None => {
                return Err(FormError::WrongType(FieldId::Longitude));
            },
        },
    };
    let latitude = match crate::json::obj_get(fields, "latitude") {
        None => {
            return Err(FormError::MissingField(FieldId::Latitude));
        },
        Some(w) => match crate::json::value_opt_num(w) {
            Some(x) => x,
            None => {
                return Err(FormError::WrongType(FieldId::Latitude));
            },
        },
    };
    let baro_altitude = match crate::json::obj_get(fields, "baro_altitude") {
        None => {
            return Err(FormError::MissingField(FieldId::BaroAltitude));
        },
        Some(w) => match crate::json::value_opt_num(w) {
            Some(x) => x,
            None => {
                return Err(FormError::WrongType(FieldId::BaroAltitude));
            },
        },
    };
    let on_ground = match crate::json::obj_get(fields, "on_ground") {
        None => {
            return Err(FormError::MissingField(FieldId::OnGround));
        },
        Some(w) => match crate::json::value_bool(w) {
            Some(x) => x,
            None => {
                return Err(FormError::WrongType(FieldId::OnGround));
            },
        },
    };
    let velocity = match crate::json::obj_get(fields, "velocity") {
        None => {
            return Err(FormError::MissingField(FieldId::Velocity));
        },
        Some(w) => match crate::json::value_opt_num(w) {
            Some(x) => x,
            None => {
                return Err(FormError::WrongType(FieldId::Velocity));
            },
        },
    };
    let true_track = match crate::json::obj_get(fields, "true_track") {
        None => {
            return Err(FormError::MissingField(FieldId::TrueTrack));
        },
        Some(w) => match crate::json::value_opt_num(w) {
            Some(x) => x,
            None => {
                return Err(FormError::WrongType(FieldId::TrueTrack));
            },
        },
    };
    let vertical_rate = match crate::json::obj_get(fields, "vertical_rate") {
        None => {
            return Err(FormError::MissingField(FieldId::VerticalRate));
        },
        Some(w) => match crate::json::value_opt_num(w) {
            Some(x) => x,
            None => {
                return Err(FormError::WrongType(FieldId::VerticalRate));
            },
        },
    };
    let sensors = match crate::json::obj_get(fields, "sensors") {
        None => {
            return Err(FormError::MissingField(FieldId::Sensors));
        },
        Some(w) => match crate::json::value_opt_u64_list(w) {
            Some(x) => x,
            None => {
                return Err(FormError::WrongType(FieldId::Sensors));
            },
        },
    };
    let geo_altitude = match crate::json::obj_get(fields, "geo_altitude") {
        None => {
            return Err(FormError::MissingField(FieldId::GeoAltitude));
        },
        Some(w) => match crate::json::value_opt_num(w) {
            Some(x) => x,
            None => {
                return Err(FormError::WrongType(FieldId::GeoAltitude));
            },
        },
    };
    let squawk = match crate::json::obj_get(fields, "squawk") {
        None => {
            return Err(FormError::MissingField(FieldId::Squawk));
        },
        Some(w) => match crate::json::value_opt_string(w) {
            Some(x) => x,
            None => {
                return Err(FormError::WrongType(FieldId::Squawk));
            },
        },
    };
    let spi = match crate::json::obj_get(fields, "spi") {
        None => {
            return Err(FormError::MissingField(FieldId::Spi));
        },
        Some(w) => match crate::json::value_bool(w) {
            Some(x) => x,
            None => {
                return Err(FormError::WrongType(FieldId::Spi));
            },
        },
    };
    let (position_source, ps_known) = match crate::json::obj_get(fields, "position_source") {
        None => {
            return Err(FormError::MissingField(FieldId::PositionSource));
        },
        Some(w) => match PositionSource::from_wire(w) {
            Some(p) => p,
            None => {
                return Err(FormError::WrongType(FieldId::PositionSource));
            },
        },
    };
    let (category, cat_known) = match crate::json::obj_get(fields, "category") {
        None => {
            return Err(FormError::MissingField(FieldId::Category));
        },
        Some(w) => match AirCraftCategory::from_wire_opt(w) {
            Some(c) => c,
            None => {
                return Err(FormError::WrongType(FieldId::Category));
            },
        },
    };
    let sv = StateVector {
        icao24,
        callsign,
        origin_country,
        time_position,
        last_contact,
        longitude,
        latitude,
        baro_altitude,
        on_ground,
        velocity,
        true_track,
        vertical_rate,
        sensors,
        geo_altitude,
        squawk,
        spi,
        position_source,
        category,
    };
    Ok((sv, !ps_known || !cat_known))
}


// ---------------------------------------------------------------------------
// Record-level decoding: either wire shape, with length tolerance.
// ---------------------------------------------------------------------------
/// One state vector decoded from either wire shape. An array of 17 elements
/// decodes without a category, one of 18 with the category taken from the
/// final element; any other length refuses, reporting the observed length.
/// A keyed object decodes through the object form.
pub open spec fn spec_decode_state_vector(v: JsonV) -> Result<(StateVectorV, bool), FormError> {
    match v {
        JsonV::Arr(e) => if e.len() == 18 {
            spec_decode_sv(e, true)
        } else if e.len() == 17 {
            spec_decode_sv(e, false)
        } else {
            Err(FormError::WrongLength { observed: e.len() as usize })
        },
        JsonV::Obj(f) => spec_decode_sv_obj(f),
        _ => Err(FormError::NotAnArray),
    }
}

/// Decodes one state vector from either wire shape (array of 17 or 18
/// elements, or a keyed object). The flag reports an enumerated-value
/// fallback.
pub fn decode_state_vector(v: &JsonValue) -> (r: Result<(StateVector, bool), FormError>)
    ensures
        match r {
            Ok((sv, warn)) => spec_decode_state_vector(v@) == Ok::<_, FormError>((sv@, warn)),
            Err(e) => spec_decode_state_vector(v@) == Err::<(StateVectorV, bool), _>(e),
        },
{
    match v {
        JsonValue::Arr(a) => {
            proof {
                crate::json::lemma_json_view_seq(a@);
            }
            if a.len() == 18 {
                decode_state_vector_array(a, true)
            } else if a.len() == 17 {
                decode_state_vector_array(a, false)
            } else {
                Err(FormError::WrongLength { observed: a.len() })
            }
        },
        JsonValue::Obj(f) => decode_state_vector_object(f),
        _ => Err(FormError::NotAnArray),
    }
}

/// One collection element under a pinned schema form: a positional array of
/// exactly the form's length, or a keyed object.
pub open spec fn spec_decode_sv_item(v: JsonV, has_category: bool) -> Result<
    (StateVectorV, bool),
    FormError,
> {
    match v {
        JsonV::Arr(e) => spec_decode_sv(e, has_category),
        JsonV::Obj(f) => spec_decode_sv_obj(f),
        _ => Err(FormError::NotAnArray),
    }
}

fn decode_sv_item(v: &JsonValue, has_category: bool) -> (r: Result<(StateVector, bool), FormError>)
    ensures
        match r {
            Ok((sv, warn)) => spec_decode_sv_item(v@, has_category) == Ok::<_, FormError>(
                (sv@, warn),
            ),
            Err(e) => spec_decode_sv_item(v@, has_category) == Err::<(StateVectorV, bool), _>(e),
        },
{
    match v {
        JsonValue::Arr(a) => decode_state_vector_array(a, has_category),
        JsonValue::Obj(f) => decode_state_vector_object(f),
        _ => Err(FormError::NotAnArray),
    }
}

/// A whole collection of state vectors under a pinned schema form, in wire
/// order; the first refusing element refuses the collection, and the
/// fallback flags of the elements are or-ed together.
pub open spec fn spec_decode_sv_list(items: Seq<JsonV>, has_category: bool) -> Result<
    (Seq<StateVectorV>, bool),
    FormError,
>
    decreases items.len(),
{
    if items.len() == 0 {
        Ok((Seq::empty(), false))
    } else {
        match (
            spec_decode_sv_list(items.drop_last(), has_category),
            spec_decode_sv_item(items.last(), has_category),
        ) {
            (Ok((rest, w1)), Ok((sv, w2))) => Ok((rest.push(sv), w1 || w2)),
            (Err(e), _) => Err(e),
            (_, Err(e)) => Err(e),
        }
    }
}

proof fn lemma_sv_list_err(items: Seq<JsonV>, has_category: bool, i: int)
    requires
        0 <= i < items.len(),
        spec_decode_sv_list(items.take(i), has_category) is Ok,
        spec_decode_sv_item(items[i], has_category) is Err,
    ensures
        spec_decode_sv_list(items, has_category) == Err::<(Seq<StateVectorV>, bool), FormError>(
            spec_decode_sv_item(items[i], has_category)->Err_0,
        ),
    decreases items.len(),
{
    if i == items.len() - 1 {
        assert(items.drop_last() =~= items.take(i));
    } else {
        assert(items.drop_last().take(i) =~= items.take(i));
        assert(items.drop_last()[i] == items[i]);
        lemma_sv_list_err(items.drop_last(), has_category, i);
    }
}

#[verifier::loop_isolation(false)]
fn decode_sv_list(items: &Vec<JsonValue>, has_category: bool) -> (r: Result<
    (Vec<StateVector>, bool),
    FormError,
>)
    ensures
        match r {
            Ok((svs, warn)) => spec_decode_sv_list(json_view_seq(items@), has_category) == Ok::<
                _,
                FormError,
            >((svs@.map_values(|sv: StateVector| sv@), warn)),
            Err(e) => spec_decode_sv_list(json_view_seq(items@), has_category) == Err::<
                (Seq<StateVectorV>, bool),
                _,
            >(e),
        },
{
    proof {
        crate::json::lemma_json_view_seq(items@);
    }
    let ghost vs = json_view_seq(items@);
    let n = items.len();
    let mut out: Vec<StateVector> = Vec::new();
    let mut warn = false;
    let mut i: usize = 0;
    proof {
        assert(vs.take(0) =~= Seq::<JsonV>::empty());
        assert(out@.map_values(|sv: StateVector| sv@) =~= Seq::<StateVectorV>::empty());
    }
    while i < n
        invariant
            0 <= i <= n,
            spec_decode_sv_list(vs.take(i as int), has_category) == Ok::<_, FormError>(
                (out@.map_values(|sv: StateVector| sv@), warn),
            ),
        decreases n - i,
    {
        match decode_sv_item(&items[i], has_category) {
            Ok((sv, w)) => {
                let ghost prev = out@.map_values(|sv: StateVector| sv@);
                out.push(sv);
                warn = warn || w;
                proof {
                    assert(vs.take(i + 1).drop_last() =~= vs.take(i as int));
                    assert(vs.take(i + 1).last() == vs[i as int]);
                    assert(out@.map_values(|sv: StateVector| sv@) =~= prev.push(
                        out@.last()@,
                    ));
                }
            },
            Err(e) => {
                proof {
                    lemma_sv_list_err(vs, has_category, i as int);
                }
                return Err(e);
            },
        }
        i = i + 1;
    }
    proof {
        assert(vs.take(n as int) =~= vs);
    }
    Ok((out, warn))
}

// ---------------------------------------------------------------------------
// The collection response and its tolerant decoder.
// ---------------------------------------------------------------------------
/// Represents a collection of state vectors returned by the states endpoint.
#[derive(Debug, PartialEq)]
pub struct States {
    /// The timestamp the collection is valid for.
    pub time: u64,
    /// The state vectors, in arrival order; a wire-null collection decodes
    /// to an empty sequence.
    pub states: Vec<StateVector>,
}

/// The mathematical view of a [`States`] response.
pub struct StatesV {
    pub time: u64,
    pub states: Seq<StateVectorV>,
}

impl View for States {
    type V = StatesV;

    open spec fn view(&self) -> StatesV {
        StatesV { time: self.time, states: self.states@.map_values(|sv: StateVector| sv@) }
    }
}

/// Which schema variant of the nested record a decode used.
#[derive(Clone, Copy, Debug, PartialEq, Eq, Structural)]
pub enum SchemaForm {
    /// The 18-element form carrying the trailing category.
    Long,
    /// The 17-element historical form without the category.
    Short,
}

/// What a decode had to tolerate: the schema form that succeeded, whether a
/// wire-null timestamp was replaced by the caller-supplied one, and whether
/// any unrecognized enumerated value fell back to its default. This is the
/// caller-visible channel that replaces ambient warning logs.
#[derive(Clone, Copy, Debug, PartialEq, Eq, Structural)]
pub struct DecodeReport {
    pub form: SchemaForm,
    pub time_defaulted: bool,
    pub enum_fallback: bool,
}

/// One parse attempt over the whole collection under a pinned schema form.
///
/// The top level must be an object. `time` must be present: an unsigned
/// integer, or wire-null exactly when the caller supplied `requested_time`
/// (the single sanctioned default substitution). `states` must be present:
/// wire-null decodes to the empty sequence, never an error.
pub open spec fn spec_decode_states_form(
    v: JsonV,
    requested_time: Option<u64>,
    has_category: bool,
) -> Result<(StatesV, bool, bool), FormError> {
    match v {
        JsonV::Obj(f) => if spec_obj_get(f, "time"@) is None {
            Err(FormError::MissingField(FieldId::Time))
        } else {
            let tv = spec_obj_get(f, "time"@)->Some_0;
            if tv is Null && requested_time is None {
                Err(FormError::NullField(FieldId::Time))
            } else if !(tv is Null) && spec_as_u64(tv) is None {
                Err(FormError::WrongType(FieldId::Time))
            } else {
                let time = if tv is Null {
                    requested_time->Some_0
                } else {
                    spec_as_u64(tv)->Some_0
                };
                let time_defaulted = tv is Null;
                if spec_obj_get(f, "states"@) is None {
                    Err(FormError::MissingField(FieldId::States))
                } else {
                    match spec_obj_get(f, "states"@)->Some_0 {
                        JsonV::Null => Ok(
                            (StatesV { time, states: Seq::empty() }, time_defaulted, false),
                        ),
                        JsonV::Arr(items) => match spec_decode_sv_list(items, has_category) {
                            Ok((svs, warn)) => Ok(
                                (StatesV { time, states: svs }, time_defaulted, warn),
                            ),
                            Err(e) => Err(e),
                        },
                        _ => Err(FormError::WrongType(FieldId::States)),
                    }
                }
            }
        },
        _ => Err(FormError::NotAnObject),
    }
}

fn decode_states_form(v: &JsonValue, requested_time: Option<u64>, has_category: bool) -> (r:
    Result<(States, bool, bool), FormError>)
    ensures
        match r {
            Ok((s, td, ef)) => spec_decode_states_form(v@, requested_time, has_category) == Ok::<
                _,
                FormError,
            >((s@, td, ef)),
            Err(e) => spec_decode_states_form(v@, requested_time, has_category) == Err::<
                (StatesV, bool, bool),
                _,
            >(e),
        },
{
    let f = match v {
        JsonValue::Obj(f) => f,
        _ => {
            return Err(FormError::NotAnObject);
        },
    };
    let tw = match crate::json::obj_get(f, "time") {
        Some(w) => w,
        None => {
            return Err(FormError::MissingField(FieldId::Time));
        },
    };
    let (time, time_defaulted) = match tw {
        JsonValue::Null => match requested_time {
            Some(t) => (t, true),
            None => {
                return Err(FormError::NullField(FieldId::Time));
            },
        },
        _ => match crate::json::value_u64(tw) {
            Some(t) => (t, false),
            None => {
                return Err(FormError::WrongType(FieldId::Time));
            },
        },
    };
    let sw = match crate::json::obj_get(f, "states") {
        Some(w) => w,
        None => {
            return Err(FormError::MissingField(FieldId::States));
        },
    };
    match sw {
        JsonValue::Null => {
            let s = States { time, states: Vec::new() };
            proof {
                assert(s@.states =~= Seq::<StateVectorV>::empty());
            }
            Ok((s, time_defaulted, false))
        },
        JsonValue::Arr(items) => match decode_sv_list(items, has_category) {
            Ok((states, warn)) => {
                let s = States { time, states };
                Ok((s, time_defaulted, warn))
            },
            Err(e) => Err(e),
        },
        _ => Err(FormError::WrongType(FieldId::States)),
    }
}

/// The tolerant collection decode with the schema-fallback policy.
///
/// With no pinned `requested_time` (a query for "now") the long form is
/// attempted first and, if and only if it refuses, the short form is
/// attempted on the same tree; only when both refuse does the decode fail,
/// reporting both failures. With a pinned time the short form alone is
/// attempted: historical snapshots only ever use the short form.
pub open spec fn spec_decode_states(v: JsonV, requested_time: Option<u64>) -> Result<
    (StatesV, SchemaForm, bool, bool),
    DecodeError,
> {
    if requested_time is Some {
        match spec_decode_states_form(v, requested_time, false) {
            Ok((s, td, ef)) => Ok((s, SchemaForm::Short, td, ef)),
            Err(e) => Err(DecodeError::Form(e)),
        }
    } else {
        match spec_decode_states_form(v, requested_time, true) {
            Ok((s, td, ef)) => Ok((s, SchemaForm::Long, td, ef)),
            Err(e1) => match spec_decode_states_form(v, requested_time, false) {
                Ok((s, td, ef)) => Ok((s, SchemaForm::Short, td, ef)),
                Err(e2) => Err(DecodeError::BothForms { long: e1, short: e2 }),
            },
        }
    }
}

/// Decodes a whole states response from the parsed tree, applying the
/// schema-fallback policy; the report says which branch was taken and what
/// was tolerated.
pub fn decode_states_value(v: &JsonValue, requested_time: Option<u64>) -> (r: Result<
    (States, DecodeReport),
    DecodeError,
>)
    ensures
        match r {
            Ok((s, rep)) => spec_decode_states(v@, requested_time) == Ok::<_, DecodeError>(
                (s@, rep.form, rep.time_defaulted, rep.enum_fallback),
            ),
            Err(e) => spec_decode_states(v@, requested_time) == Err::<
                (StatesV, SchemaForm, bool, bool),
                _,
            >(e),
        },
{
    if requested_time.is_some() {
        match decode_states_form(v, requested_time, false) {
            Ok((s, td, ef)) => Ok(
                (
                    s,
                    DecodeReport {
                        form: SchemaForm::Short,
                        time_defaulted: td,
                        enum_fallback: ef,
                    },
                ),
            ),
            Err(e) => Err(DecodeError::Form(e)),
        }
    } else {
        match decode_states_form(v, requested_time, true) {
            Ok((s, td, ef)) => Ok(
                (
                    s,
                    DecodeReport { form: SchemaForm::Long, time_defaulted: td, enum_fallback: ef },
                ),
            ),
            Err(e1) => match decode_states_form(v, requested_time, false) {
                Ok((s, td, ef)) => Ok(
                    (
                        s,
                        DecodeReport {
                            form: SchemaForm::Short,
                            time_defaulted: td,
                            enum_fallback: ef,
                        },
                    ),
                ),
                Err(e2) => Err(DecodeError::BothForms { long: e1, short: e2 }),
            },
        }
    }
}

/// What a states response body decodes to: a refused JSON document is a
/// `Json` error, anything else follows the schema-fallback policy.
pub open spec fn spec_decode_states_bytes(bytes: Seq<u8>, requested_time: Option<u64>) -> Result<
    (StatesV, SchemaForm, bool, bool),
    DecodeError,
> {
    match crate::json::spec_json_parse(bytes) {
        None => Err(DecodeError::Json),
        Some(v) => spec_decode_states(v, requested_time),
    }
}

/// Decodes a states response body. `requested_time` is the timestamp the
/// caller pinned on the request, if any: it selects the schema policy and is
/// the sanctioned substitute for a wire-null `time`.
pub fn decode_states(body: &[u8], requested_time: Option<u64>) -> (r: Result<
    (States, DecodeReport),
    DecodeError,
>)
    ensures
        match r {
            Ok((s, rep)) => spec_decode_states_bytes(body@, requested_time) == Ok::<
                _,
                DecodeError,
            >((s@, rep.form, rep.time_defaulted, rep.enum_fallback)),
            Err(e) => spec_decode_states_bytes(body@, requested_time) == Err::<
                (StatesV, SchemaForm, bool, bool),
                _,
            >(e),
        },
{
    match crate::json::parse_json(body) {
        None => Err(DecodeError::Json),
        Some(v) => decode_states_value(&v, requested_time),
    }
}


// ---------------------------------------------------------------------------
// The canonical object-form encoder for state vectors.
// ---------------------------------------------------------------------------
/// The canonical object form of one state vector: all keys present and in
/// declaration order, absent optional values as wire null, enumerated values
/// as their canonical names.
pub open spec fn spec_encode_sv_fields(sv: StateVectorV) -> Seq<(Seq<char>, JsonV)> {
    seq![
        ("icao24"@, JsonV::Str(sv.icao24)),
        ("callsign"@, spec_enc_opt_str(sv.callsign)),
        ("origin_country"@, JsonV::Str(sv.origin_country)),
        ("time_position"@, spec_enc_opt_u64(sv.time_position)),
        ("last_contact"@, JsonV::Num(NumberV::Uint(sv.last_contact))),
        ("longitude"@, spec_enc_opt_num(sv.longitude)),
        ("latitude"@, spec_enc_opt_num(sv.latitude)),
        ("baro_altitude"@, spec_enc_opt_num(sv.baro_altitude)),
        ("on_ground"@, JsonV::Bool(sv.on_ground)),
        ("velocity"@, spec_enc_opt_num(sv.velocity)),
        ("true_track"@, spec_enc_opt_num(sv.true_track)),
        ("vertical_rate"@, spec_enc_opt_num(sv.vertical_rate)),
        ("sensors"@, spec_enc_opt_u64_seq(sv.sensors)),
        ("geo_altitude"@, spec_enc_opt_num(sv.geo_altitude)),
        ("squawk"@, spec_enc_opt_str(sv.squawk)),
        ("spi"@, JsonV::Bool(sv.spi)),
        ("position_source"@, JsonV::Str(sv.position_source.spec_name())),
        ("category"@, (match sv.category { None => JsonV::Null, Some(c) => JsonV::Str(c.spec_name()) })),
    ]
}

pub open spec fn spec_encode_sv(sv: StateVectorV) -> JsonV {
    JsonV::Obj(spec_encode_sv_fields(sv))
}

/// Builds the canonical object form of one state vector.
pub fn encode_state_vector_value(sv: &StateVector) -> (r: JsonValue)
    ensures
        json_view(r) == spec_encode_sv(sv@),
{
    let mut fields: Vec<(String, JsonValue)> = Vec::new();
    fields.push((String::from_str("icao24"), JsonValue::Str(sv.icao24.clone())));
    fields.push((String::from_str("callsign"), crate::json::enc_opt_str(&sv.callsign)));
    fields.push((String::from_str("origin_country"), JsonValue::Str(sv.origin_country.clone())));
    fields.push((String::from_str("time_position"), crate::json::enc_opt_u64(&sv.time_position)));
    fields.push((String::from_str("last_contact"), JsonValue::Num(JsonNumber::Uint(sv.last_contact))));
    fields.push((String::from_str("longitude"), crate::json::enc_opt_num(&sv.longitude)));
    fields.push((String::from_str("latitude"), crate::json::enc_opt_num(&sv.latitude)));
    fields.push((String::from_str("baro_altitude"), crate::json::enc_opt_num(&sv.baro_altitude)));
    fields.push((String::from_str("on_ground"), JsonValue::Bool(sv.on_ground)));
    fields.push((String::from_str("velocity"), crate::json::enc_opt_num(&sv.velocity)));
    fields.push((String::from_str("true_track"), crate::json::enc_opt_num(&sv.true_track)));
    fields.push((String::from_str("vertical_rate"), crate::json::enc_opt_num(&sv.vertical_rate)));
    fields.push((String::from_str("sensors"), crate::json::enc_opt_u64_list(&sv.sensors)));
    fields.push((String::from_str("geo_altitude"), crate::json::enc_opt_num(&sv.geo_altitude)));
    fields.push((String::from_str("squawk"), crate::json::enc_opt_str(&sv.squawk)));
    fields.push((String::from_str("spi"), JsonValue::Bool(sv.spi)));
    fields.push((String::from_str("position_source"), JsonValue::Str(String::from_str(sv.position_source.name()))));
    fields.push((String::from_str("category"), (match sv.category {
        None => JsonValue::Null,
        Some(c) => JsonValue::Str(String::from_str(c.name())),
    })));
    let r = JsonValue::Obj(fields);
    proof {
        crate::json::lemma_json_view_fields(fields@);
        assert(json_view_fields(fields@) =~= spec_encode_sv_fields(sv@));
    }
    r
}


/// The canonical object form of a whole states response.
pub open spec fn spec_encode_states(s: StatesV) -> JsonV {
    JsonV::Obj(
        seq![
            ("time"@, JsonV::Num(NumberV::Uint(s.time))),
            ("states"@, JsonV::Arr(s.states.map_values(|sv: StateVectorV| spec_encode_sv(sv)))),
        ],
    )
}

/// Builds the canonical object form of a whole states response.
#[verifier::loop_isolation(false)]
pub fn encode_states_value(s: &States) -> (r: JsonValue)
    ensures
        json_view(r) == spec_encode_states(s@),
{
    let n = s.states.len();
    let mut items: Vec<JsonValue> = Vec::new();
    let mut i: usize = 0;
    proof {
        assert(json_view_seq(items@) =~= s.states@.take(0).map_values(
            |x: StateVector| spec_encode_sv(x@),
        ));
    }
    while i < n
        invariant
            0 <= i <= n,
            n == s.states@.len(),
            json_view_seq(items@) == s.states@.take(i as int).map_values(
                |x: StateVector| spec_encode_sv(x@),
            ),
        decreases n - i,
    {
        let ghost prev = items@;
        let item = encode_state_vector_value(&s.states[i]);
        items.push(item);
        proof {
            assert(items@.drop_last() =~= prev);
            assert(json_view_seq(items@) == json_view_seq(prev).push(
                json_view(items@.last()),
            ));
            assert(s.states@.take(i + 1) =~= s.states@.take(i as int).push(
                s.states@[i as int],
            ));
            assert(s.states@.take(i + 1).map_values(|x: StateVector| spec_encode_sv(x@))
                =~= s.states@.take(i as int).map_values(
                |x: StateVector| spec_encode_sv(x@),
            ).push(spec_encode_sv(s.states@[i as int]@)));
        }
        i = i + 1;
    }
    let arr = JsonValue::Arr(items);
    let mut fields: Vec<(String, JsonValue)> = Vec::new();
    fields.push((String::from_str("time"), JsonValue::Num(JsonNumber::Uint(s.time))));
    fields.push((String::from_str("states"), arr));
    let r = JsonValue::Obj(fields);
    proof {
        assert(s.states@.take(n as int) =~= s.states@);
        assert(s.states@.map_values(|x: StateVector| spec_encode_sv(x@)) =~= s@.states.map_values(
            |sv: StateVectorV| spec_encode_sv(sv),
        ));
        crate::json::lemma_json_view_fields(fields@);
        assert(json_view_fields(fields@) =~= spec_encode_states(s@)->Obj_0);
    }
    r
}

/// The canonical textual encoding of a whole states response: decoding it
/// back (through the object-form path) provably yields an equal value.
pub fn encode_states_canonical(s: &States) -> (out: String)
    ensures
        out@ == crate::render::spec_render_json(spec_encode_states(s@)),
{
    let v = encode_states_value(s);
    crate::render::render_json(&v)
}

// ---------------------------------------------------------------------------
// Round-trip laws.
// ---------------------------------------------------------------------------
proof fn lemma_u64_seq_round_trip(s: Seq<u64>)
    ensures
        spec_u64_seq(spec_enc_u64_seq(s)) == Some(s),
    decreases s.len(),
{
    if s.len() > 0 {
        assert(spec_enc_u64_seq(s).drop_last() =~= spec_enc_u64_seq(s.drop_last()));
        lemma_u64_seq_round_trip(s.drop_last());
        assert(spec_enc_u64_seq(s).last() == JsonV::Num(NumberV::Uint(s.last())));
        assert(s.drop_last().push(s.last()) =~= s);
    } else {
        assert(spec_enc_u64_seq(s) =~= Seq::<JsonV>::empty());
    }
}

/// Law (object-form round trip): decoding the canonical object form of any
/// state vector yields that state vector back, with no enumerated-value
/// fallback.
#[verifier::rlimit(100)]
pub proof fn lemma_sv_obj_round_trip(sv: StateVectorV)
    ensures
        spec_decode_sv_obj(spec_encode_sv_fields(sv)) == Ok::<(StateVectorV, bool), FormError>(
            (sv, false),
        ),
{
    let f = spec_encode_sv_fields(sv);
        assert(spec_obj_get(f, "icao24"@) == Some(JsonV::Str(sv.icao24))) by {
            reveal_with_fuel(crate::json::spec_obj_get, 20);
            reveal_strlit("icao24");
            assert("icao24"@.len() == 6);
        }
        assert(spec_obj_get(f, "callsign"@) == Some(spec_enc_opt_str(sv.callsign))) by {
            reveal_with_fuel(crate::json::spec_obj_get, 20);
            reveal_strlit("icao24");
            reveal_strlit("callsign");
            assert("icao24"@.len() == 6);
            assert("callsign"@.len() == 8);
        }
        assert(spec_obj_get(f, "origin_country"@) == Some(JsonV::Str(sv.origin_country))) by {
            reveal_with_fuel(crate::json::spec_obj_get, 20);
            reveal_strlit("icao24");
            reveal_strlit("callsign");
            reveal_strlit("origin_country");
            assert("icao24"@.len() == 6);
            assert("callsign"@.len() == 8);
            assert("origin_country"@.len() == 14);
        }
        assert(spec_obj_get(f, "time_position"@) == Some(spec_enc_opt_u64(sv.time_position))) by {
            reveal_with_fuel(crate::json::spec_obj_get, 20);
            reveal_strlit("icao24");
            reveal_strlit("callsign");
            reveal_strlit("origin_country");
            reveal_strlit("time_position");
            assert("icao24"@.len() == 6);
            assert("callsign"@.len() == 8);
            assert("origin_country"@.len() == 14);
            assert("time_position"@.len() == 13);
        }
        assert(spec_obj_get(f, "last_contact"@) == Some(JsonV::Num(NumberV::Uint(sv.last_contact)))) by {
            reveal_with_fuel(crate::json::spec_obj_get, 20);
            reveal_strlit("icao24");
            reveal_strlit("callsign");
            reveal_strlit("origin_country");
            reveal_strlit("time_position");
            reveal_strlit("last_contact");
            assert("icao24"@.len() == 6);
            assert("callsign"@.len() == 8);
            assert("origin_country"@.len() == 14);
            assert("time_position"@.len() == 13);
            assert("last_contact"@.len() == 12);
        }
        assert(spec_obj_get(f, "longitude"@) == Some(spec_enc_opt_num(sv.longitude))) by {
            reveal_with_fuel(crate::json::spec_obj_get, 20);
            reveal_strlit("icao24");
            reveal_strlit("callsign");
            reveal_strlit("origin_country");
            reveal_strlit("time_position");
            reveal_strlit("last_contact");
            reveal_strlit("longitude");
            assert("icao24"@.len() == 6);
            assert("callsign"@.len() == 8);
            assert("origin_country"@.len() == 14);
            assert("time_position"@.len() == 13);
            assert("last_contact"@.len() == 12);
            assert("longitude"@.len() == 9);
        }
        assert(spec_obj_get(f, "latitude"@) == Some(spec_enc_opt_num(sv.latitude))) by {
            reveal_with_fuel(crate::json::spec_obj_get, 20);
            reveal_strlit("icao24");
            reveal_strlit("callsign");
            reveal_strlit("origin_country");
            reveal_strlit("time_position");
            reveal_strlit("last_contact");
            reveal_strlit("longitude");
            reveal_strlit("latitude");
            assert("icao24"@.len() == 6);
            assert("callsign"@.len() == 8);
            assert("origin_country"@.len() == 14);
            assert("time_position"@.len() == 13);
            assert("last_contact"@.len() == 12);
            assert("longitude"@.len() == 9);
            assert("latitude"@.len() == 8);
            assert("latitude"@[0] != "callsign"@[0]);
            assert("latitude"@ != "callsign"@);
        }
        assert(spec_obj_get(f, "baro_altitude"@) == Some(spec_enc_opt_num(sv.baro_altitude))) by {
            reveal_with_fuel(crate::json::spec_obj_get, 20);
            reveal_strlit("icao24");
            reveal_strlit("callsign");
            reveal_strlit("origin_country");
            reveal_strlit("time_position");
            reveal_strlit("last_contact");
            reveal_strlit("longitude");
            reveal_strlit("latitude");
            reveal_strlit("baro_altitude");
            assert("icao24"@.len() == 6);
            assert("callsign"@.len() == 8);
            assert("origin_country"@.len() == 14);
            assert("time_position"@.len() == 13);
            assert("last_contact"@.len() == 12);
            assert("longitude"@.len() == 9);
            assert("latitude"@.len() == 8);
            assert("baro_altitude"@.len() == 13);
            assert("baro_altitude"@[0] != "time_position"@[0]);
            assert("baro_altitude"@ != "time_position"@);
        }
        assert(spec_obj_get(f, "on_ground"@) == Some(JsonV::Bool(sv.on_ground))) by {
            reveal_with_fuel(crate::json::spec_obj_get, 20);
            reveal_strlit("icao24");
            reveal_strlit("callsign");
            reveal_strlit("origin_country");
            reveal_strlit("time_position");
            reveal_strlit("last_contact");
            reveal_strlit("longitude");
            reveal_strlit("latitude");
            reveal_strlit("baro_altitude");
            reveal_strlit("on_ground");
            assert("icao24"@.len() == 6);
            assert("callsign"@.len() == 8);
            assert("origin_country"@.len() == 14);
            assert("time_position"@.len() == 13);
            assert("last_contact"@.len() == 12);
            assert("longitude"@.len() == 9);
            assert("latitude"@.len() == 8);
            assert("baro_altitude"@.len() == 13);
            assert("on_ground"@.len() == 9);
            assert("on_ground"@[0] != "longitude"@[0]);
            assert("on_ground"@ != "longitude"@);
        }
        assert(spec_obj_get(f, "velocity"@) == Some(spec_enc_opt_num(sv.velocity))) by {
            reveal_with_fuel(crate::json::spec_obj_get, 20);
            reveal_strlit("icao24");
            reveal_strlit("callsign");
            reveal_strlit("origin_country");
            reveal_strlit("time_position");
            reveal_strlit("last_contact");
            reveal_strlit("longitude");
            reveal_strlit("latitude");
            reveal_strlit("baro_altitude");
            reveal_strlit("on_ground");
            reveal_strlit("velocity");
            assert("icao24"@.len() == 6);
            assert("callsign"@.len() == 8);
            assert("origin_country"@.len() == 14);
            assert("time_position"@.len() == 13);
            assert("last_contact"@.len() == 12);
            assert("longitude"@.len() == 9);
            assert("latitude"@.len() == 8);
            assert("baro_altitude"@.len() == 13);
            assert("on_ground"@.len() == 9);
            assert("velocity"@.len() == 8);
            assert("velocity"@[0] != "callsign"@[0]);
            assert("velocity"@ != "callsign"@);
            assert("velocity"@[0] != "latitude"@[0]);
            assert("velocity"@ != "latitude"@);
        }
        assert(spec_obj_get(f, "true_track"@) == Some(spec_enc_opt_num(sv.true_track))) by {
            reveal_with_fuel(crate::json::spec_obj_get, 20);
            reveal_strlit("icao24");
            reveal_strlit("callsign");
            reveal_strlit("origin_country");
            reveal_strlit("time_position");
            reveal_strlit("last_contact");
            reveal_strlit("longitude");
            reveal_strlit("latitude");
            reveal_strlit("baro_altitude");
            reveal_strlit("on_ground");
            reveal_strlit("velocity");
            reveal_strlit("true_track");
            assert("icao24"@.len() == 6);
            assert("callsign"@.len() == 8);
            assert("origin_country"@.len() == 14);
            assert("time_position"@.len() == 13);
            assert("last_contact"@.len() == 12);
            assert("longitude"@.len() == 9);
            assert("latitude"@.len() == 8);
            assert("baro_altitude"@.len() == 13);
            assert("on_ground"@.len() == 9);
            assert("velocity"@.len() == 8);
            assert("true_track"@.len() == 10);
        }
        assert(spec_obj_get(f, "vertical_rate"@) == Some(spec_enc_opt_num(sv.vertical_rate))) by {
            reveal_with_fuel(crate::json::spec_obj_get, 20);
            reveal_strlit("icao24");
            reveal_strlit("callsign");
            reveal_strlit("origin_country");
            reveal_strlit("time_position");
            reveal_strlit("last_contact");
            reveal_strlit("longitude");
            reveal_strlit("latitude");
            reveal_strlit("baro_altitude");
            reveal_strlit("on_ground");
            reveal_strlit("velocity");
            reveal_strlit("true_track");
            reveal_strlit("vertical_rate");
            assert("icao24"@.len() == 6);
            assert("callsign"@.len() == 8);
            assert("origin_country"@.len() == 14);
            assert("time_position"@.len() == 13);
            assert("last_contact"@.len() == 12);
            assert("longitude"@.len() == 9);
            assert("latitude"@.len() == 8);
            assert("baro_altitude"@.len() == 13);
            assert("on_ground"@.len() == 9);
            assert("velocity"@.len() == 8);
            assert("true_track"@.len() == 10);
            assert("vertical_rate"@.len() == 13);
            assert("vertical_rate"@[0] != "time_position"@[0]);
            assert("vertical_rate"@ != "time_position"@);
            assert("vertical_rate"@[0] != "baro_altitude"@[0]);
            assert("vertical_rate"@ != "baro_altitude"@);
        }
        assert(spec_obj_get(f, "sensors"@) == Some(spec_enc_opt_u64_seq(sv.sensors))) by {
            reveal_with_fuel(crate::json::spec_obj_get, 20);
            reveal_strlit("icao24");
            reveal_strlit("callsign");
            reveal_strlit("origin_country");
            reveal_strlit("time_position");
            reveal_strlit("last_contact");
            reveal_strlit("longitude");
            reveal_strlit("latitude");
            reveal_strlit("baro_altitude");
            reveal_strlit("on_ground");
            reveal_strlit("velocity");
            reveal_strlit("true_track");
            reveal_strlit("vertical_rate");
            reveal_strlit("sensors");
            assert("icao24"@.len() == 6);
            assert("callsign"@.len() == 8);
            assert("origin_country"@.len() == 14);
            assert("time_position"@.len() == 13);
            assert("last_contact"@.len() == 12);
            assert("longitude"@.len() == 9);
            assert("latitude"@.len() == 8);
            assert("baro_altitude"@.len() == 13);
            assert("on_ground"@.len() == 9);
            assert("velocity"@.len() == 8);
            assert("true_track"@.len() == 10);
            assert("vertical_rate"@.len() == 13);
            assert("sensors"@.len() == 7);
        }
        assert(spec_obj_get(f, "geo_altitude"@) == Some(spec_enc_opt_num(sv.geo_altitude))) by {
            reveal_with_fuel(crate::json::spec_obj_get, 20);
            reveal_strlit("icao24");
            reveal_strlit("callsign");
            reveal_strlit("origin_country");
            reveal_strlit("time_position");
            reveal_strlit("last_contact");
            reveal_strlit("longitude");
            reveal_strlit("latitude");
            reveal_strlit("baro_altitude");
            reveal_strlit("on_ground");
            reveal_strlit("velocity");
            reveal_strlit("true_track");
            reveal_strlit("vertical_rate");
            reveal_strlit("sensors");
            reveal_strlit("geo_altitude");
            assert("icao24"@.len() == 6);
            assert("callsign"@.len() == 8);
            assert("origin_country"@.len() == 14);
            assert("time_position"@.len() == 13);
            assert("last_contact"@.len() == 12);
            assert("longitude"@.len() == 9);
            assert("latitude"@.len() == 8);
            assert("baro_altitude"@.len() == 13);
            assert("on_ground"@.len() == 9);
            assert("velocity"@.len() == 8);
            assert("true_track"@.len() == 10);
            assert("vertical_rate"@.len() == 13);
            assert("sensors"@.len() == 7);
            assert("geo_altitude"@.len() == 12);
            assert("geo_altitude"@[0] != "last_contact"@[0]);
            assert("geo_altitude"@ != "last_contact"@);
        }
        assert(spec_obj_get(f, "squawk"@) == Some(spec_enc_opt_str(sv.squawk))) by {
            reveal_with_fuel(crate::json::spec_obj_get, 20);
            reveal_strlit("icao24");
            reveal_strlit("callsign");
            reveal_strlit("origin_country");
            reveal_strlit("time_position");
            reveal_strlit("last_contact");
            reveal_strlit("longitude");
            reveal_strlit("latitude");
            reveal_strlit("baro_altitude");
            reveal_strlit("on_ground");
            reveal_strlit("velocity");
            reveal_strlit("true_track");
            reveal_strlit("vertical_rate");
            reveal_strlit("sensors");
            reveal_strlit("geo_altitude");
            reveal_strlit("squawk");
            assert("icao24"@.len() == 6);
            assert("callsign"@.len() == 8);
            assert("origin_country"@.len() == 14);
            assert("time_position"@.len() == 13);
            assert("last_contact"@.len() == 12);
            assert("longitude"@.len() == 9);
            assert("latitude"@.len() == 8);
            assert("baro_altitude"@.len() == 13);
            assert("on_ground"@.len() == 9);
            assert("velocity"@.len() == 8);
            assert("true_track"@.len() == 10);
            assert("vertical_rate"@.len() == 13);
            assert("sensors"@.len() == 7);
            assert("geo_altitude"@.len() == 12);
            assert("squawk"@.len() == 6);
            assert("squawk"@[0] != "icao24"@[0]);
            assert("squawk"@ != "icao24"@);
        }
        assert(spec_obj_get(f, "spi"@) == Some(JsonV::Bool(sv.spi))) by {
            reveal_with_fuel(crate::json::spec_obj_get, 20);
            reveal_strlit("icao24");
            reveal_strlit("callsign");
            reveal_strlit("origin_country");
            reveal_strlit("time_position");
            reveal_strlit("last_contact");
            reveal_strlit("longitude");
            reveal_strlit("latitude");
            reveal_strlit("baro_altitude");
            reveal_strlit("on_ground");
            reveal_strlit("velocity");
            reveal_strlit("true_track");
            reveal_strlit("vertical_rate");
            reveal_strlit("sensors");
            reveal_strlit("geo_altitude");
            reveal_strlit("squawk");
            reveal_strlit("spi");
            assert("icao24"@.len() == 6);
            assert("callsign"@.len() == 8);
            assert("origin_country"@.len() == 14);
            assert("time_position"@.len() == 13);
            assert("last_contact"@.len() == 12);
            assert("longitude"@.len() == 9);
            assert("latitude"@.len() == 8);
            assert("baro_altitude"@.len() == 13);
            assert("on_ground"@.len() == 9);
            assert("velocity"@.len() == 8);
            assert("true_track"@.len() == 10);
            assert("vertical_rate"@.len() == 13);
            assert("sensors"@.len() == 7);
            assert("geo_altitude"@.len() == 12);
            assert("squawk"@.len() == 6);
            assert("spi"@.len() == 3);
        }
        assert(spec_obj_get(f, "position_source"@) == Some(JsonV::Str(sv.position_source.spec_name()))) by {
            reveal_with_fuel(crate::json::spec_obj_get, 20);
            reveal_strlit("icao24");
            reveal_strlit("callsign");
            reveal_strlit("origin_country");
            reveal_strlit("time_position");
            reveal_strlit("last_contact");
            reveal_strlit("longitude");
            reveal_strlit("latitude");
            reveal_strlit("baro_altitude");
            reveal_strlit("on_ground");
            reveal_strlit("velocity");
            reveal_strlit("true_track");
            reveal_strlit("vertical_rate");
            reveal_strlit("sensors");
            reveal_strlit("geo_altitude");
            reveal_strlit("squawk");
            reveal_strlit("spi");
            reveal_strlit("position_source");
            assert("icao24"@.len() == 6);
            assert("callsign"@.len() == 8);
            assert("origin_country"@.len() == 14);
            assert("time_position"@.len() == 13);
            assert("last_contact"@.len() == 12);
            assert("longitude"@.len() == 9);
            assert("latitude"@.len() == 8);
            assert("baro_altitude"@.len() == 13);
            assert("on_ground"@.len() == 9);
            assert("velocity"@.len() == 8);
            assert("true_track"@.len() == 10);
            assert("vertical_rate"@.len() == 13);
            assert("sensors"@.len() == 7);
            assert("geo_altitude"@.len() == 12);
            assert("squawk"@.len() == 6);
            assert("spi"@.len() == 3);
            assert("position_source"@.len() == 15);
        }
        assert(spec_obj_get(f, "category"@) == Some((match sv.category { None => JsonV::Null, Some(c) => JsonV::Str(c.spec_name()) }))) by {
            reveal_with_fuel(crate::json::spec_obj_get, 20);
            reveal_strlit("icao24");
            reveal_strlit("callsign");
            reveal_strlit("origin_country");
            reveal_strlit("time_position");
            reveal_strlit("last_contact");
            reveal_strlit("longitude");
            reveal_strlit("latitude");
            reveal_strlit("baro_altitude");
            reveal_strlit("on_ground");
            reveal_strlit("velocity");
            reveal_strlit("true_track");
            reveal_strlit("vertical_rate");
            reveal_strlit("sensors");
            reveal_strlit("geo_altitude");
            reveal_strlit("squawk");
            reveal_strlit("spi");
            reveal_strlit("position_source");
            reveal_strlit("category");
            assert("icao24"@.len() == 6);
            assert("callsign"@.len() == 8);
            assert("origin_country"@.len() == 14);
            assert("time_position"@.len() == 13);
            assert("last_contact"@.len() == 12);
            assert("longitude"@.len() == 9);
            assert("latitude"@.len() == 8);
            assert("baro_altitude"@.len() == 13);
            assert("on_ground"@.len() == 9);
            assert("velocity"@.len() == 8);
            assert("true_track"@.len() == 10);
            assert("vertical_rate"@.len() == 13);
            assert("sensors"@.len() == 7);
            assert("geo_altitude"@.len() == 12);
            assert("squawk"@.len() == 6);
            assert("spi"@.len() == 3);
            assert("position_source"@.len() == 15);
            assert("category"@.len() == 8);
            assert("category"@[2] != "callsign"@[2]);
            assert("category"@ != "callsign"@);
            assert("category"@[0] != "latitude"@[0]);
            assert("category"@ != "latitude"@);
            assert("category"@[0] != "velocity"@[0]);
            assert("category"@ != "velocity"@);
        }
    lemma_position_source_name_round_trip(sv.position_source);
    if sv.category is Some {
        lemma_category_name_round_trip(sv.category->Some_0);
    }
    if sv.sensors is Some {
        lemma_u64_seq_round_trip(sv.sensors->Some_0);
    }
    assert(spec_decode_sv_obj(f)->Ok_0.0 =~= sv);
}


/// The positional array form of one state vector, in the long (18-element)
/// or short (17-element) shape. This is the spec-level witness the
/// dual-shape law speaks of: the array a peer would send for this record.
pub open spec fn spec_encode_sv_array(sv: StateVectorV, long: bool) -> Seq<JsonV> {
    let base = seq![
        JsonV::Str(sv.icao24),
        spec_enc_opt_str(sv.callsign),
        JsonV::Str(sv.origin_country),
        spec_enc_opt_u64(sv.time_position),
        JsonV::Num(NumberV::Uint(sv.last_contact)),
        spec_enc_opt_num(sv.longitude),
        spec_enc_opt_num(sv.latitude),
        spec_enc_opt_num(sv.baro_altitude),
        JsonV::Bool(sv.on_ground),
        spec_enc_opt_num(sv.velocity),
        spec_enc_opt_num(sv.true_track),
        spec_enc_opt_num(sv.vertical_rate),
        spec_enc_opt_u64_seq(sv.sensors),
        spec_enc_opt_num(sv.geo_altitude),
        spec_enc_opt_str(sv.squawk),
        JsonV::Bool(sv.spi),
        JsonV::Str(sv.position_source.spec_name()),
    ];
    if long {
        base.push(
            match sv.category {
                None => JsonV::Null,
                Some(c) => JsonV::Str(c.spec_name()),
            },
        )
    } else {
        base
    }
}

/// Law (array-form round trip): decoding the long array form of any state
/// vector yields it back; the short form does so for any state vector
/// without a category (the short shape cannot carry one).
#[verifier::rlimit(100)]
pub proof fn lemma_sv_array_round_trip(sv: StateVectorV)
    ensures
        spec_decode_sv(spec_encode_sv_array(sv, true), true) == Ok::<
            (StateVectorV, bool),
            FormError,
        >((sv, false)),
        sv.category is None ==> spec_decode_sv(spec_encode_sv_array(sv, false), false) == Ok::<
            (StateVectorV, bool),
            FormError,
        >((sv, false)),
{
    lemma_position_source_name_round_trip(sv.position_source);
    if sv.category is Some {
        lemma_category_name_round_trip(sv.category->Some_0);
    }
    if sv.sensors is Some {
        lemma_u64_seq_round_trip(sv.sensors->Some_0);
    }
    assert(spec_encode_sv_array(sv, true).len() == 18);
    assert(spec_encode_sv_array(sv, false).len() == 17);
    assert(spec_decode_sv(spec_encode_sv_array(sv, true), true)->Ok_0.0 =~= sv);
    if sv.category is None {
        assert(spec_decode_sv(spec_encode_sv_array(sv, false), false)->Ok_0.0 =~= sv);
    }
}

/// Law (dual-shape equivalence): for any state vector, decoding its
/// positional array form and decoding its keyed object form yield the
/// identical typed record — this one — and neither reports a fallback.
pub proof fn lemma_dual_shape_equivalence(sv: StateVectorV)
    ensures
        spec_decode_state_vector(JsonV::Arr(spec_encode_sv_array(sv, true))) == Ok::<
            (StateVectorV, bool),
            FormError,
        >((sv, false)),
        spec_decode_state_vector(JsonV::Obj(spec_encode_sv_fields(sv))) == Ok::<
            (StateVectorV, bool),
            FormError,
        >((sv, false)),
{
    lemma_sv_array_round_trip(sv);
    lemma_sv_obj_round_trip(sv);
    assert(spec_encode_sv_array(sv, true).len() == 18);
}

proof fn lemma_sv_list_round_trip(svs: Seq<StateVectorV>, has_category: bool)
    ensures
        spec_decode_sv_list(
            svs.map_values(|sv: StateVectorV| spec_encode_sv(sv)),
            has_category,
        ) == Ok::<(Seq<StateVectorV>, bool), FormError>((svs, false)),
    decreases svs.len(),
{
    let items = svs.map_values(|sv: StateVectorV| spec_encode_sv(sv));
    if svs.len() == 0 {
        assert(items =~= Seq::<JsonV>::empty());
        assert(svs =~= Seq::<StateVectorV>::empty());
    } else {
        assert(items.drop_last() =~= svs.drop_last().map_values(
            |sv: StateVectorV| spec_encode_sv(sv),
        ));
        lemma_sv_list_round_trip(svs.drop_last(), has_category);
        lemma_sv_obj_round_trip(svs.last());
        assert(items.last() == spec_encode_sv(svs.last()));
        assert(svs.drop_last().push(svs.last()) =~= svs);
    }
}

/// Law (collection round trip): decoding the canonical encoding of any
/// states response — under either schema policy — yields that response
/// back, with no time substitution and no enumerated-value fallback. With a
/// pinned time the short-form branch decodes it, otherwise the long-form
/// branch does: the canonical object-form records satisfy both shapes.
pub proof fn lemma_states_round_trip(s: StatesV, requested_time: Option<u64>)
    ensures
        spec_decode_states(spec_encode_states(s), requested_time) == Ok::<
            (StatesV, SchemaForm, bool, bool),
            DecodeError,
        >(
            (
                s,
                if requested_time is Some {
                    SchemaForm::Short
                } else {
                    SchemaForm::Long
                },
                false,
                false,
            ),
        ),
{
    let v = spec_encode_states(s);
    let f = v->Obj_0;
    let items = s.states.map_values(|sv: StateVectorV| spec_encode_sv(sv));
    assert(spec_obj_get(f, "time"@) == Some(JsonV::Num(NumberV::Uint(s.time)))) by {
        reveal_with_fuel(crate::json::spec_obj_get, 3);
    }
    assert(spec_obj_get(f, "states"@) == Some(JsonV::Arr(items))) by {
        reveal_with_fuel(crate::json::spec_obj_get, 3);
        reveal_strlit("time");
        reveal_strlit("states");
        assert("time"@.len() == 4);
        assert("states"@.len() == 6);
    }
    lemma_sv_list_round_trip(s.states, true);
    lemma_sv_list_round_trip(s.states, false);
    assert(spec_decode_states_form(v, requested_time, true)->Ok_0.0 =~= s);
    assert(spec_decode_states_form(v, requested_time, false)->Ok_0.0 =~= s);
}


// ---------------------------------------------------------------------------
// The states request and its builder: the URL is specified to the character.
// ---------------------------------------------------------------------------
/// The credential prefix embedded into a URL: `user:password@`, or nothing.
pub open spec fn spec_login_part(o: Option<LoginV>) -> Seq<char> {
    match o {
        Some(l) => l.username + seq![':'] + l.password + seq!['@'],
        None => Seq::empty(),
    }
}

/// Appends the credential prefix for `login`.
pub fn append_login_part(out: &mut String, login: &Option<Login>)
    ensures
        final(out)@ == old(out)@ + spec_login_part(spec_opt_login(*login)),
{
    match login {
        Some(l) => {
            out.append(l.username.as_str());
            out.push(':');
            out.append(l.password.as_str());
            out.push('@');
            proof {
                assert(final(out)@ =~= old(out)@ + spec_login_part(spec_opt_login(*login)));
            }
        },
        None => {
        },
    }
}

/// The view of optional credentials.
pub open spec fn spec_opt_login(o: Option<Login>) -> Option<LoginV> {
    match o {
        Some(l) => Some(l@),
        None => None,
    }
}

/// The view of an optional bounding box.
pub open spec fn spec_opt_bbox(o: Option<BoundingBox>) -> Option<BoundingBoxV> {
    match o {
        Some(b) => Some(b@),
        None => None,
    }
}

/// The query separator: `?` opens the query, `&` continues it.
pub open spec fn spec_sep(first: bool) -> Seq<char> {
    if first {
        seq!['?']
    } else {
        seq!['&']
    }
}

/// The `icao24=` filters, joined: the first bare, the rest with `&`.
pub open spec fn spec_icao_part(items: Seq<Seq<char>>) -> Seq<char>
    decreases items.len(),
{
    if items.len() == 0 {
        Seq::empty()
    } else if items.len() == 1 {
        "icao24="@ + items[0]
    } else {
        spec_icao_part(items.drop_last()) + "&icao24="@ + items.last()
    }
}

/// The `serials=` filters, joined the same way.
pub open spec fn spec_serials_part(items: Seq<u64>) -> Seq<char>
    decreases items.len(),
{
    if items.len() == 0 {
        Seq::empty()
    } else if items.len() == 1 {
        "serials="@ + spec_dec_nat(items[0] as nat)
    } else {
        spec_serials_part(items.drop_last()) + "&serials="@ + spec_dec_nat(items.last() as nat)
    }
}

/// A request for state vectors, assembled by [`StateRequestBuilder`].
#[derive(Debug)]
pub struct StateRequest {
    login: Option<Login>,
    bbox: Option<BoundingBox>,
    time: Option<u64>,
    icao24_addresses: Vec<String>,
    serials: Vec<u64>,
}

/// The mathematical view of a [`StateRequest`].
pub struct StateRequestV {
    pub login: Option<LoginV>,
    pub bbox: Option<BoundingBoxV>,
    pub time: Option<u64>,
    pub icao24_addresses: Seq<Seq<char>>,
    pub serials: Seq<u64>,
}

impl View for StateRequest {
    type V = StateRequestV;

    closed spec fn view(&self) -> StateRequestV {
        StateRequestV {
            login: spec_opt_login(self.login),
            bbox: spec_opt_bbox(self.bbox),
            time: self.time,
            icao24_addresses: self.icao24_addresses@.map_values(|s: String| s@),
            serials: self.serials@,
        }
    }
}

/// The time argument, written first when present: it opens the query.
pub open spec fn spec_time_arg(t: Option<u64>) -> Seq<char> {
    match t {
        Some(t) => seq!['?'] + "time="@ + spec_dec_nat(t as nat),
        None => Seq::empty(),
    }
}

/// The bounding-box argument.
pub open spec fn spec_bbox_arg(b: Option<BoundingBoxV>, first: bool) -> Seq<char> {
    match b {
        Some(b) => spec_sep(first) + "lamin="@ + b.lat_min + "&lomin="@ + b.long_min + "&lamax="@
            + b.lat_max + "&lomax="@ + b.long_max,
        None => Seq::empty(),
    }
}

/// The `icao24=` arguments.
pub open spec fn spec_icao_arg(items: Seq<Seq<char>>, first: bool) -> Seq<char> {
    if items.len() == 0 {
        Seq::empty()
    } else {
        spec_sep(first) + spec_icao_part(items)
    }
}

/// The `serials=` arguments.
pub open spec fn spec_serials_arg(items: Seq<u64>, first: bool) -> Seq<char> {
    if items.len() == 0 {
        Seq::empty()
    } else {
        spec_sep(first) + spec_serials_part(items)
    }
}

/// The whole query string of a states request: time, bounding box, address
/// filters and serial filters, in that fixed order.
pub open spec fn spec_states_args(r: StateRequestV) -> Seq<char> {
    let a1 = spec_time_arg(r.time);
    let a2 = a1 + spec_bbox_arg(r.bbox, a1.len() == 0);
    let a3 = a2 + spec_icao_arg(r.icao24_addresses, a2.len() == 0);
    a3 + spec_serials_arg(r.serials, a3.len() == 0)
}

/// The exact URL of a states request: credentials, the `own` endpoint when
/// receiver serials are given (`all` otherwise), and the query arguments.
pub open spec fn spec_states_url(r: StateRequestV) -> Seq<char> {
    "https://"@ + spec_login_part(r.login) + "opensky-network.org/api/states/"@ + (
    if r.serials.len() > 0 {
        "own"@
    } else {
        "all"@
    }) + spec_states_args(r)
}

fn append_time_arg(args: &mut String, t: Option<u64>)
    ensures
        final(args)@ == old(args)@ + spec_time_arg(t),
{
    match t {
        Some(t) => {
            args.push('?');
            args.append("time=");
            crate::text::append_u64(args, t);
            proof {
                assert(final(args)@ =~= old(args)@ + spec_time_arg(Some(t)));
            }
        },
        None => {
        },
    }
}

fn append_bbox_arg(args: &mut String, bbox: &Option<BoundingBox>, first: bool)
    ensures
        final(args)@ == old(args)@ + spec_bbox_arg(spec_opt_bbox(*bbox), first),
{
    match bbox {
        Some(b) => {
            args.push(if first { '?' } else { '&' });
            args.append("lamin=");
            args.append(b.lat_min.as_str());
            args.append("&lomin=");
            args.append(b.long_min.as_str());
            args.append("&lamax=");
            args.append(b.lat_max.as_str());
            args.append("&lomax=");
            args.append(b.long_max.as_str());
            proof {
                assert(final(args)@ =~= old(args)@ + spec_bbox_arg(spec_opt_bbox(*bbox), first));
            }
        },
        None => {
        },
    }
}

#[verifier::loop_isolation(false)]
fn append_icao_args(args: &mut String, addrs: &Vec<String>, first: bool)
    ensures
        final(args)@ == old(args)@ + spec_icao_arg(
            addrs@.map_values(|s: String| s@),
            first,
        ),
{
    let ghost items = addrs@.map_values(|s: String| s@);
    let n = addrs.len();
    if n == 0 {
        proof {
            assert(final(args)@ =~= old(args)@ + spec_icao_arg(items, first));
        }
        return ;
    }
    args.push(if first { '?' } else { '&' });
    let ghost base = args@;
    let mut i: usize = 0;
    while i < n
        invariant
            0 <= i <= n,
            n == items.len(),
            i == 0 ==> args@ == base,
            i >= 1 ==> args@ == base + spec_icao_part(items.take(i as int)),
        decreases n - i,
    {
        if i == 0 {
            args.append("icao24=");
        } else {
            args.append("&icao24=");
        }
        args.append(addrs[i].as_str());
        proof {
            assert(items.take(i + 1).len() == i + 1);
            assert(items.take(i + 1).drop_last() =~= items.take(i as int));
            assert(items.take(i + 1).last() == items[i as int]);
            assert(items[i as int] == addrs@[i as int]@);
            assert(args@ =~= base + spec_icao_part(items.take(i + 1)));
        }
        i = i + 1;
    }
    proof {
        assert(items.take(n as int) =~= items);
        assert(final(args)@ =~= old(args)@ + spec_icao_arg(items, first));
    }
}

#[verifier::loop_isolation(false)]
fn append_serial_args(args: &mut String, serials: &Vec<u64>, first: bool)
    ensures
        final(args)@ == old(args)@ + spec_serials_arg(serials@, first),
{
    let ghost items = serials@;
    let m = serials.len();
    if m == 0 {
        proof {
            assert(final(args)@ =~= old(args)@ + spec_serials_arg(items, first));
        }
        return ;
    }
    args.push(if first { '?' } else { '&' });
    let ghost base = args@;
    let mut i: usize = 0;
    while i < m
        invariant
            0 <= i <= m,
            m == items.len(),
            i == 0 ==> args@ == base,
            i >= 1 ==> args@ == base + spec_serials_part(items.take(i as int)),
        decreases m - i,
    {
        if i == 0 {
            args.append("serials=");
        } else {
            args.append("&serials=");
        }
        crate::text::append_u64(args, serials[i]);
        proof {
            assert(items.take(i + 1).len() == i + 1);
            assert(items.take(i + 1).drop_last() =~= items.take(i as int));
            assert(items.take(i + 1).last() == items[i as int]);
            assert(args@ =~= base + spec_serials_part(items.take(i + 1)));
        }
        i = i + 1;
    }
    proof {
        assert(items.take(m as int) =~= items);
        assert(final(args)@ =~= old(args)@ + spec_serials_arg(items, first));
    }
}

impl StateRequest {
    /// The URL this request will be sent to, exact to the character.
    pub fn url(&self) -> (r: String)
        ensures
            r@ == spec_states_url(self@),
    {
        let ghost rv = self@;
        let mut args = String::new();
        append_time_arg(&mut args, self.time);
        let f1 = self.time.is_none();
        proof {
            assert(args@ == spec_time_arg(rv.time));
            assert(f1 == (spec_time_arg(rv.time).len() == 0));
        }
        append_bbox_arg(&mut args, &self.bbox, f1);
        let f2 = f1 && self.bbox.is_none();
        proof {
            assert(f2 == (args@.len() == 0));
        }
        append_icao_args(&mut args, &self.icao24_addresses, f2);
        let f3 = f2 && self.icao24_addresses.len() == 0;
        proof {
            assert(f3 == (args@.len() == 0));
        }
        append_serial_args(&mut args, &self.serials, f3);
        proof {
            assert(args@ == spec_states_args(rv));
        }
        let mut out = String::new();
        out.append("https://");
        append_login_part(&mut out, &self.login);
        out.append("opensky-network.org/api/states/");
        if self.serials.len() > 0 {
            out.append("own");
        } else {
            out.append("all");
        }
        out.append(args.as_str());
        proof {
            assert(out@ =~= spec_states_url(rv));
        }
        out
    }

    /// The timestamp this request was pinned to, if any: the decoder's
    /// `requested_time`.
    pub fn requested_time(&self) -> (r: Option<u64>)
        ensures
            r == self@.time,
    {
        self.time
    }

    /// An owned copy with the same view.
    pub fn duplicate(&self) -> (r: StateRequest)
        ensures
            r@ == self@,
    {
        let mut addresses: Vec<String> = Vec::new();
        let n = self.icao24_addresses.len();
        let mut i: usize = 0;
        while i < n
            invariant
                0 <= i <= n,
                n == self.icao24_addresses@.len(),
                addresses@.map_values(|s: String| s@) == self.icao24_addresses@.take(
                    i as int,
                ).map_values(|s: String| s@),
            decreases n - i,
        {
            let ghost prev = addresses@.map_values(|s: String| s@);
            addresses.push(self.icao24_addresses[i].clone());
            proof {
                assert(addresses@.map_values(|s: String| s@) =~= prev.push(
                    addresses@.last()@,
                ));
                assert(self.icao24_addresses@.take(i + 1).map_values(|s: String| s@)
                    =~= self.icao24_addresses@.take(i as int).map_values(|s: String| s@).push(
                    self.icao24_addresses@[i as int]@,
                ));
            }
            i = i + 1;
        }
        let mut serials: Vec<u64> = Vec::new();
        let m = self.serials.len();
        let mut j: usize = 0;
        while j < m
            invariant
                0 <= j <= m,
                m == self.serials@.len(),
                serials@ == self.serials@.take(j as int),
            decreases m - j,
        {
            serials.push(self.serials[j]);
            proof {
                assert(self.serials@.take(j + 1) =~= self.serials@.take(j as int).push(
                    self.serials@[j as int],
                ));
            }
            j = j + 1;
        }
        let r = StateRequest {
            login: match &self.login {
                Some(l) => Some(l.duplicate()),
                None => None,
            },
            bbox: match &self.bbox {
                Some(b) => Some(b.duplicate()),
                None => None,
            },
            time: self.time,
            icao24_addresses: addresses,
            serials,
        };
        proof {
            assert(self.icao24_addresses@.take(n as int) =~= self.icao24_addresses@);
            assert(self.serials@.take(m as int) =~= self.serials@);
        }
        r
    }
}

/// Builds a [`StateRequest`] step by step.
pub struct StateRequestBuilder {
    inner: StateRequest,
}

impl StateRequestBuilder {
    /// The request built so far.
    pub closed spec fn spec_inner(&self) -> StateRequestV {
        self.inner@
    }

    /// A fresh builder: no bounding box, no pinned time, no filters.
    pub fn new(login: Option<Login>) -> (r: StateRequestBuilder)
        ensures
            r.spec_inner() == (StateRequestV {
                login: spec_opt_login(login),
                bbox: None,
                time: None,
                icao24_addresses: Seq::empty(),
                serials: Seq::empty(),
            }),
    {
        let r = StateRequestBuilder {
            inner: StateRequest {
                login,
                bbox: None,
                time: None,
                icao24_addresses: Vec::new(),
                serials: Vec::new(),
            },
        };
        proof {
            assert(r.inner@.icao24_addresses =~= Seq::<Seq<char>>::empty());
            assert(r.inner@.serials =~= Seq::<u64>::empty());
        }
        r
    }

    /// Adds the provided bounding box to the request. This will only get
    /// states that are within that bounding box, and overwrites any
    /// previously specified one.
    pub fn with_bbox(self, bbox: BoundingBox) -> (r: StateRequestBuilder)
        ensures
            r.spec_inner() == (StateRequestV { bbox: Some(bbox@), ..self.spec_inner() }),
    {
        StateRequestBuilder {
            inner: StateRequest { bbox: Some(bbox), ..self.inner },
        }
    }

    /// Specifies the time at which to get the data, in seconds since the
    /// Unix epoch. How far back a timestamp may lie depends on the access
    /// the user has to historical data.
    pub fn at_time(self, timestamp: u64) -> (r: StateRequestBuilder)
        ensures
            r.spec_inner() == (StateRequestV { time: Some(timestamp), ..self.spec_inner() }),
    {
        StateRequestBuilder {
            inner: StateRequest { time: Some(timestamp), ..self.inner },
        }
    }

    /// Adds an ICAO24 transponder address, a hex string, to filter by;
    /// calling this again appends further addresses. With no address the
    /// request covers all aircraft.
    pub fn with_icao24(self, address: String) -> (r: StateRequestBuilder)
        ensures
            r.spec_inner() == (StateRequestV {
                icao24_addresses: self.spec_inner().icao24_addresses.push(address@),
                ..self.spec_inner()
            }),
    {
        let mut inner = self.inner;
        let ghost before = inner@.icao24_addresses;
        inner.icao24_addresses.push(address);
        proof {
            assert(inner@.icao24_addresses =~= before.push(
                inner.icao24_addresses@.last()@,
            ));
        }
        StateRequestBuilder { inner }
    }

    /// Adds the serial number of a receiver the user owns; such requests
    /// are answered from the `own` endpoint. Calling this again appends
    /// further serials.
    pub fn with_serial(self, serial: u64) -> (r: StateRequestBuilder)
        ensures
            r.spec_inner() == (StateRequestV {
                serials: self.spec_inner().serials.push(serial),
                ..self.spec_inner()
            }),
    {
        let mut inner = self.inner;
        inner.serials.push(serial);
        StateRequestBuilder { inner }
    }

    /// Consumes this builder and returns the request. Where the builder is
    /// to be used again, `finish` keeps it intact.
    pub fn consume(self) -> (r: StateRequest)
        ensures
            r@ == self.spec_inner(),
    {
        self.inner
    }

    /// Returns the request this builder has created, leaving the builder
    /// usable; this copies the inner request, so a builder used only once
    /// is better consumed.
    pub fn finish(&self) -> (r: StateRequest)
        ensures
            r@ == self.spec_inner(),
    {
        self.inner.duplicate()
    }
}


/// Law (schema-fallback ordering): with no pinned time, whenever the
/// long-form parse of a tree refuses and the short-form parse of the same
/// tree succeeds, the decode returns the short-form result — the long-form
/// failure is not propagated.
pub proof fn lemma_schema_fallback_ordering(v: JsonV)
    requires
        spec_decode_states_form(v, None, true) is Err,
        spec_decode_states_form(v, None, false) is Ok,
    ensures
        spec_decode_states(v, None) == Ok::<(StatesV, SchemaForm, bool, bool), DecodeError>(
            (
                spec_decode_states_form(v, None, false)->Ok_0.0,
                SchemaForm::Short,
                spec_decode_states_form(v, None, false)->Ok_0.1,
                spec_decode_states_form(v, None, false)->Ok_0.2,
            ),
        ),
{
}

} // verus!
