use vstd::prelude::*;

verus! {

/// One telemetry record for the append-only location topic: the
/// coordinates of a position update, kept as the number literals from
/// the wire.  The boundary turns them into its compact binary encoding.
pub struct LocationLog {
    pub lat: String,
    pub lon: String,
}

impl View for LocationLog {
    type V = (Seq<char>, Seq<char>);

    open spec fn view(&self) -> (Seq<char>, Seq<char>) {
        (self.lat@, self.lon@)
    }
}

impl DeepView for LocationLog {
    type V = (Seq<char>, Seq<char>);

    open spec fn deep_view(&self) -> (Seq<char>, Seq<char>) {
        self.view()
    }
}

impl LocationLog {
    pub fn new(lat: String, lon: String) -> (r: Self)
        ensures
            r.lat == lat,
            r.lon == lon,
    {
        Self { lat, lon }
    }
}

} // verus!
