//! Showing and changing the saved places.

use vstd::prelude::*;
use crate::config::WeatherConfig;
use crate::errors::AppError;
use crate::registry::places_text;
use crate::registry::removed;
use crate::registry::upserted;
use crate::weather::PlaceView;
use crate::weather::PlacesAction;

verus! {

/// What came of an action on the saved places.
#[derive(Debug)]
pub struct PlacesOutcome {
    /// Whether the places changed and are to be stored.
    pub save: bool,
    /// The lines that show the places as they now are.
    pub report: String,
}

/// The places after an action that was not refused.
pub open spec fn places_after(s: Seq<PlaceView>, act: PlacesAction) -> Seq<PlaceView> {
    match act {
        PlacesAction::GetAll => s,
        PlacesAction::Save(place) => upserted(s, place@),
        PlacesAction::Remove(tag) => removed(s, tag@),
    }
}

/// Whether an action is refused: saving a place that lies off the globe.
pub open spec fn is_refused(act: PlacesAction) -> bool {
    act matches PlacesAction::Save(place) && !place.coordinates.is_valid()
}

/// Whether an action, once done, leaves something to store: a place was
/// saved, or one was removed that was there.
pub open spec fn changes_places(s: Seq<PlaceView>, act: PlacesAction) -> bool {
    match act {
        PlacesAction::GetAll => false,
        PlacesAction::Save(_) => true,
        PlacesAction::Remove(tag) => crate::registry::has_tag(s, tag@),
    }
}

/// Does `act` to the saved places and shows them. A place off the globe is
/// refused with the coordinate that is out of range, and nothing changes
/// then. The provider is never touched.
pub fn manage_places(config: &mut WeatherConfig, act: PlacesAction) -> (r: Result<
    PlacesOutcome,
    AppError,
>)
    requires
        old(config).wf(),
    ensures
        final(config).wf(),
        final(config).provider == old(config).provider,
        r is Err <==> is_refused(act),
        r is Err ==> *final(config) == *old(config),
        r matches Err(e) ==> act matches PlacesAction::Save(place)
            && place.coordinates.validation() == Err::<(), AppError>(e),
        r matches Ok(outcome) ==> {
            &&& final(config).places.entries() == places_after(old(config).places.entries(), act)
            &&& outcome.save == changes_places(old(config).places.entries(), act)
            &&& outcome.report@ == places_text(final(config).places.entries())
            &&& !outcome.save ==> *final(config) == *old(config)
        },
{
    let save = match act {
        PlacesAction::GetAll => false,
        PlacesAction::Save(place) => {
            match config.places.upsert(place) {
                Err(e) => {
                    return Err(e);
                },
                Ok(()) => true,
            }
        },
        PlacesAction::Remove(tag) => config.places.remove(&tag),
    };
    let report = config.places.report();
    Ok(PlacesOutcome { save, report })
}

} // verus!
