//! What the consumer stores of local content.
use vstd::prelude::*;

use uuid::Uuid;

use crate::db::models::{NewEvent, NewEventSection};

use super::models::{is_event_record_of_local, is_section_record_of_local};
use super::{LocalEvent, LocalEventSection};

verus! {

/// The record of a local event, in the group that its `group_slug` names.
pub fn event_record_in_group(event: LocalEvent, group_id: Uuid) -> (r: NewEvent)
    ensures
        r.group_id == Some(group_id),
        is_event_record_of_local((NewEvent { group_id: None, ..r }), event),
{
    let mut new_event = NewEvent::from_local(event);
    new_event.group_id = Some(group_id);
    new_event
}

/// The records of the sections of the event that was stored as `event_id`,
/// in order.
pub fn section_records_of_event(sections: Vec<LocalEventSection>, event_id: Uuid) -> (r: Vec<
    NewEventSection,
>)
    ensures
        r@.len() == sections@.len(),
        forall|i: int|
            0 <= i < r@.len() ==> (#[trigger] r@[i]).event_id == Some(event_id) && is_section_record_of_local(
                (NewEventSection { event_id: None, ..r@[i] }),
                sections@[i],
            ),
{
    let ghost all = sections@;
    let mut out: Vec<NewEventSection> = Vec::new();
    for sec in it: sections.into_iter()
        invariant
            it.seq() == all,
            out@.len() == it.index(),
            forall|i: int|
                0 <= i < out@.len() ==> (#[trigger] out@[i]).event_id == Some(event_id)
                    && is_section_record_of_local(
                    (NewEventSection { event_id: None, ..out@[i] }),
                    all[i],
                ),
    {
        let mut section = NewEventSection::from_local(sec);
        section.event_id = Some(event_id);
        out.push(section);
    }
    out
}

} // verus!
