//! Records of the geolocation endpoints.

use vstd::prelude::*;

verus! {

/// Links to other services for a located address; `open_street_map` is sent
/// as `openstreetmap` and `google_maps` as `googlemaps`.
#[derive(Clone, Debug, PartialEq, Eq)]
pub struct GeoIPResponseApis {
    pub weather: String,
    pub gis: String,
    pub open_street_map: String,
    pub google_maps: String,
}

} // verus!
