//! Client library for the OpenSky Network's REST interface.
//!
//! The OpenSky Network is a community receiver network that collects air
//! traffic surveillance data. This crate builds the request URLs for its
//! state-vector, flight and track endpoints and decodes the responses.
//!
//! The wire format is awkward: each state vector or waypoint arrives as a
//! positionally-ordered JSON array of mixed types, with an optional trailing
//! field and enumerated values that may be sent either as small integers or
//! as names. The decoding layer here is specified and verified: every decode
//! function's result is pinned down by a contract over a mathematical view of
//! the JSON tree, and the canonical object-form re-encoding provably round
//! trips through the decoder.
use vstd::prelude::*;

pub mod bounding_box;
pub mod errors;
pub mod flights;
pub mod json;
pub mod render;
pub mod states;
pub mod tracks;
pub mod text;

pub use bounding_box::BoundingBox;
pub use flights::Flight;
pub use states::{StateVector, States};
pub use tracks::{FlightTrack, Waypoint};

verus! {

/// Credentials that are embedded into request URLs.
#[derive(Debug)]
pub struct Login {
    pub username: String,
    pub password: String,
}

pub struct LoginV {
    pub username: Seq<char>,
    pub password: Seq<char>,
}

impl View for Login {
    type V = LoginV;

    open spec fn view(&self) -> LoginV {
        LoginV { username: self.username@, password: self.password@ }
    }
}

impl Login {
    pub fn duplicate(&self) -> (r: Login)
        ensures
            r@ == self@,
    {
        Login { username: self.username.clone(), password: self.password.clone() }
    }
}

/// Entry point: holds the (optional) credentials and hands out request
/// builders for the individual endpoints.
pub struct OpenSkyApi {
    login: Option<Login>,
}

impl OpenSkyApi {
    /// The credentials this instance was created with, if any.
    pub closed spec fn spec_login(&self) -> Option<LoginV> {
        match self.login {
            Some(l) => Some(l@),
            None => None,
        }
    }

    /// Creates a new anonymous OpenSkyApi instance.
    pub fn new() -> (r: Self)
        ensures
            r.spec_login() is None,
    {
        OpenSkyApi { login: None }
    }

    /// Creates a new OpenSkyApi instance with the provided username and
    /// password.
    pub fn with_login(username: String, password: String) -> (r: Self)
        ensures
            r.spec_login() == Some(LoginV { username: username@, password: password@ }),
    {
        OpenSkyApi { login: Some(Login { username, password }) }
    }

    /// An owned copy of the credentials, for a request.
    fn login_copy(&self) -> (r: Option<Login>)
        ensures
            states::spec_opt_login(r) == self.spec_login(),
    {
        match &self.login {
            Some(l) => Some(l.duplicate()),
            None => None,
        }
    }

    /// Creates a new StateRequestBuilder which can be used to create
    /// state requests.
    pub fn get_states(&self) -> (r: states::StateRequestBuilder)
        ensures
            r.spec_inner() == (states::StateRequestV {
                login: self.spec_login(),
                bbox: None,
                time: None,
                icao24_addresses: Seq::empty(),
                serials: Seq::empty(),
            }),
    {
        states::StateRequestBuilder::new(self.login_copy())
    }

    /// Creates a new FlightsRequestBuilder using the given time interval,
    /// in seconds since the Unix epoch. The interval must not span more
    /// than two hours, or the service will refuse the request.
    pub fn get_flights(&self, begin: u64, end: u64) -> (r: flights::FlightsRequestBuilder)
        ensures
            r.spec_inner() == (flights::FlightsRequestV {
                login: self.spec_login(),
                begin,
                end,
                icao24_address: None,
            }),
    {
        flights::FlightsRequestBuilder::new(self.login_copy(), begin, end)
    }

    /// Creates a new TrackRequestBuilder for the given ICAO24 address of a
    /// certain aircraft.
    ///
    /// In contrast to state vectors, trajectories do not carry everything
    /// known about the flight; they show the aircraft's general movement
    /// pattern through a reduced set of waypoints.
    pub fn get_tracks(&self, icao24: String) -> (r: tracks::TrackRequestBuilder)
        ensures
            r.spec_inner() == (tracks::TrackRequestV {
                login: self.spec_login(),
                icao24: icao24@,
                time: 0,
            }),
    {
        tracks::TrackRequestBuilder::new(self.login_copy(), icao24)
    }
}

impl Default for OpenSkyApi {
    fn default() -> (r: Self)
        ensures
            r.spec_login() is None,
    {
        OpenSkyApi::new()
    }
}

} // verus!
