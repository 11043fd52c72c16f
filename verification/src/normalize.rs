//! The event normalizer: the pure mapping from each monitor's native
//! event shape into the controller's unified message vocabulary.
//!
//! Keeping this mapping outside the controller keeps the controller
//! transport-agnostic: a new event source needs a new mapping function
//! here, not a controller change.

use vstd::prelude::*;

use crate::controller::{Message, UpdateMedia};
use crate::mpris::Event;

verus! {

/// Map one media-monitor event to its controller message: observed
/// activity opens or refreshes, a delta merges, an invalidation removes,
/// a failure is surfaced.
pub fn normalize(event: Event) -> (message: Message)
    ensures
        event is NewMethodCall ==> message == Message::OpenOrRefreshWindow,
        event matches Event::Update(p) ==> message == Message::UpdateMedia(UpdateMedia::Update(p)),
        event matches Event::RemoveProperties(names) ==> message == Message::UpdateMedia(
            UpdateMedia::Remove(names),
        ),
        event matches Event::Error(e) ==> message == Message::Error(e),
{
    match event {
        Event::NewMethodCall => Message::OpenOrRefreshWindow,
        Event::Update(properties) => Message::UpdateMedia(UpdateMedia::Update(properties)),
        Event::RemoveProperties(properties) => Message::UpdateMedia(
            UpdateMedia::Remove(properties),
        ),
        Event::Error(error) => Message::Error(error),
    }
}

/// Map one volume-monitor event to its controller message. The volume
/// source is a stub that only reports text, so everything it says is
/// surfaced the way failures are.
pub fn normalize_volume(event: String) -> (message: Message)
    ensures
        message == Message::Error(event),
{
    Message::Error(event)
}

} // verus!
