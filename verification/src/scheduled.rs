//! Items that mark a task as scheduled.

use vstd::prelude::*;
use vstd::string::StringExecFns;
use crate::event::{Event, EventDescription, EventListener};
use crate::item::CachedDataItem;
use crate::state::InProgressState;

verus! {

/// The text of the done event of work that `description` names: the description followed by
/// " done_event".
pub open spec fn done_text(description: Seq<char>) -> Seq<char> {
    description + " done_event"@
}

impl CachedDataItem {
    /// Whether the item marks a task as scheduled, with a done event whose text is `text`.
    pub open spec fn is_scheduled_with(self, text: Seq<char>) -> bool {
        &&& self matches CachedDataItem::InProgress {
            value: InProgressState::Scheduled { done_event },
        }
        &&& done_event.description matches EventDescription::Done { description }
        &&& description@ == text
    }

    /// The item that marks a task as scheduled, with a fresh done event whose text is what
    /// `description` gives followed by " done_event". `description` is called once, here.
    pub fn new_scheduled<D: Fn() -> String + Sync + Send + 'static>(description: D) -> (res: Self)
        requires
            call_requires(description, ()),
        ensures
            exists|d: String|
                call_ensures(description, (), d) && res.is_scheduled_with(done_text(d@)),
    {
        let mut d = description();
        let ghost given = d;
        d.append(" done_event");
        let res = CachedDataItem::InProgress {
            value: InProgressState::Scheduled {
                done_event: Event::new(EventDescription::Done { description: d }),
            },
        };
        assert(call_ensures(description, (), given) && res.is_scheduled_with(done_text(given@)));
        res
    }

    /// The item that marks a task as scheduled, with a fresh done event whose text is what
    /// `description` gives followed by " done_event", and a listener to that event whose note
    /// `note` gives. Both closures are called once, here.
    pub fn new_scheduled_with_listener<
        D: Fn() -> String + Sync + Send + 'static,
        N: Fn() -> String + Sync + Send + 'static,
    >(description: D, note: N) -> (res: (Self, EventListener))
        requires
            call_requires(description, ()),
            call_requires(note, ()),
        ensures
            exists|d: String|
                call_ensures(description, (), d) && res.0.is_scheduled_with(done_text(d@)),
            res.0 matches CachedDataItem::InProgress {
                value: InProgressState::Scheduled { done_event },
            } && res.1.event == done_event.description,
            exists|n: String| call_ensures(note, (), n) && res.1.note == n,
    {
        let mut d = description();
        let ghost given = d;
        d.append(" done_event");
        let done_event = Event::new(EventDescription::Done { description: d });
        let listener = done_event.listen_with_note(note);
        let res = (
            CachedDataItem::InProgress { value: InProgressState::Scheduled { done_event } },
            listener,
        );
        assert(call_ensures(description, (), given) && res.0.is_scheduled_with(
            done_text(given@),
        ));
        res
    }
}

} // verus!
