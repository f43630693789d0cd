//! The event broadcaster: the plan for delivering one normalized event
//! to every tracked window.
//!
//! Delivery itself is fire-and-forget and owed to the host messaging
//! layer: a target torn down concurrently is silently dropped, and a
//! per-target delivery error is non-fatal. The plan pins down what is
//! verifiable about a broadcast: every tracked window (the primary
//! control surface included) gets the same event, exactly once per
//! broadcast, in registry order, under the fixed event channel.

use vstd::prelude::*;

use crate::events::InputEvent;
use crate::registry::all_labels;
use crate::registry::views_of;
use crate::registry::Registry;
use crate::tray::Notification;

verus! {

/// The fixed channel name normalized input events are emitted under.
pub open spec fn input_channel_spec() -> Seq<char> {
    "input-event"@
}

/// The channel name for normalized input events.
pub fn input_event_channel() -> (c: &'static str)
    ensures
        c@ == input_channel_spec(),
{
    "input-event"
}

/// The channel name a primary-window notification is emitted under.
pub open spec fn notification_channel_spec(n: Notification) -> Seq<char> {
    match n {
        Notification::SurfaceShown => "show-ui"@,
        Notification::SurfaceHidden => "hide-ui"@,
    }
}

/// The channel name for one primary-window notification.
pub fn notification_channel(n: &Notification) -> (c: &'static str)
    ensures
        c@ == notification_channel_spec(*n),
{
    match n {
        Notification::SurfaceShown => "show-ui",
        Notification::SurfaceHidden => "hide-ui",
    }
}

/// One delivery of a broadcast: a target window's label and the event
/// it is to receive.
#[derive(Clone, Debug, PartialEq)]
pub struct Delivery {
    pub target: String,
    pub event: InputEvent,
}

/// Plan one broadcast: one delivery per tracked window, in registry
/// order, each carrying the same event.
pub fn broadcast_plan(reg: &Registry, event: InputEvent) -> (plan: Vec<Delivery>)
    ensures
        plan@.len() == reg@.len(),
        forall|i: int|
            0 <= i < plan@.len() ==> #[trigger] plan@[i].target@ == all_labels(reg@)[i]
                && plan@[i].event == event,
{
    let labels = reg.labels();
    let mut plan: Vec<Delivery> = Vec::new();
    let n = labels.len();
    proof {
        assert(views_of(labels@).len() == labels@.len());
    }
    let mut i: usize = 0;
    while i < n
        invariant
            n == labels.len(),
            views_of(labels@) == all_labels(reg@),
            i <= n,
            plan@.len() == i,
            forall|j: int|
                0 <= j < i ==> #[trigger] plan@[j].target@ == all_labels(reg@)[j]
                    && plan@[j].event == event,
        decreases n - i,
    {
        let ghost prev = plan@;
        plan.push(Delivery { target: labels[i].clone(), event });
        proof {
            assert(views_of(labels@)[i as int] == labels@[i as int]@);
            assert forall|j: int|
                0 <= j < i + 1 implies #[trigger] plan@[j].target@ == all_labels(reg@)[j]
                && plan@[j].event == event by {
                if j < i {
                    assert(plan@[j] == prev[j]);
                    assert(prev[j].target@ == all_labels(reg@)[j] && prev[j].event == event);
                } else {
                    assert(plan@[j].target@ == labels@[i as int]@);
                }
            };
        }
        i = i + 1;
    }
    plan
}

} // verus!
