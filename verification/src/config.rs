//! What is kept between runs: the provider that was chosen, and the saved
//! places.

use vstd::prelude::*;
use crate::registry::PlaceRegistry;
use crate::weather::Place;
use crate::weather::PlaceTag;
use crate::weather::PlaceView;
use crate::weather::Provider;

verus! {

/// What is kept between runs.
#[derive(Debug)]
pub struct WeatherConfig {
    pub provider: Option<Provider>,
    pub places: PlaceRegistry,
}

impl Default for WeatherConfig {
    /// No provider chosen, no place saved.
    fn default() -> (r: WeatherConfig)
        ensures
            r.wf(),
            r.provider is None,
            r.places.entries() == Seq::<PlaceView>::empty(),
    {
        WeatherConfig { provider: None, places: PlaceRegistry::new() }
    }
}

impl WeatherConfig {
    /// No tag is saved twice.
    pub open spec fn wf(self) -> bool {
        self.places.wf()
    }

    /// The place saved under the tag, if one is.
    pub fn place_by_tag(&self, tag: &PlaceTag) -> (r: Option<Place>)
        requires
            self.wf(),
        ensures
            r is Some <==> self.places@.dom().contains(tag@),
            r matches Some(p) ==> p@.tag == tag@ && p@.coordinates == self.places@[tag@],
    {
        self.places.place_by_tag(tag)
    }
}

} // verus!
