use vstd::prelude::*;
use crate::wire::is_json_number;

verus! {

/// A geographic position as it stands on the wire: latitude and
/// longitude kept as the exact JSON number literals the courier sent,
/// so that relaying preserves them byte for byte.
pub struct Position {
    pub lat: String,
    pub lon: String,
}

impl Position {
    /// Both coordinates are well-formed JSON number literals.
    pub open spec fn wf(&self) -> bool {
        is_json_number(self.lat@) && is_json_number(self.lon@)
    }

    pub fn new(lat: String, lon: String) -> (r: Self)
        ensures
            r.lat == lat,
            r.lon == lon,
    {
        Self { lat, lon }
    }
}

/// A distance hint, in kilometres, kept as a JSON number literal.
pub struct Distance {
    pub km: String,
}

impl Distance {
    /// The distance is a well-formed JSON number literal.
    pub open spec fn wf(&self) -> bool {
        is_json_number(self.km@)
    }

    pub fn new(km: String) -> (r: Self)
        ensures
            r.km == km,
    {
        Self { km }
    }
}

} // verus!
