//! Raw input events and the filter that normalizes them.
//!
//! The capture hook sees every OS-level input event, including pointer
//! motion at very high frequency. The filter drops motion unconditionally
//! and forwards every other event unchanged in semantic content; the
//! normalized stream therefore contains exactly the non-motion events in
//! their original relative order.

use vstd::prelude::*;

verus! {

/// A raw operating-system input event, as seen by the global hook.
///
/// Pointer coordinates are not carried: motion events exist only to be
/// recognized and dropped by the filter, never to be forwarded.
#[derive(Clone, Copy, Debug, PartialEq, Eq, Structural)]
pub enum RawEvent {
    /// Pointer motion; high-frequency noise that the filter discards.
    MouseMove,
    KeyDown(u32),
    KeyUp(u32),
    ButtonDown(u32),
    ButtonUp(u32),
    Scroll { delta_x: i64, delta_y: i64 },
}

/// A normalized input event, ready for broadcast to subscribers.
///
/// By construction this type has no pointer-motion variant, so motion
/// can never reach a subscriber.
#[derive(Clone, Copy, Debug, PartialEq, Eq, Structural)]
pub enum InputEvent {
    KeyDown(u32),
    KeyUp(u32),
    ButtonDown(u32),
    ButtonUp(u32),
    Scroll { delta_x: i64, delta_y: i64 },
}

/// Whether a raw event is pointer motion.
pub open spec fn is_motion(e: RawEvent) -> bool {
    e is MouseMove
}

/// The normalized form of one raw event: `None` exactly for pointer
/// motion, and the same semantic content for everything else.
pub open spec fn normalize_spec(e: RawEvent) -> Option<InputEvent> {
    match e {
        RawEvent::MouseMove => None,
        RawEvent::KeyDown(k) => Some(InputEvent::KeyDown(k)),
        RawEvent::KeyUp(k) => Some(InputEvent::KeyUp(k)),
        RawEvent::ButtonDown(b) => Some(InputEvent::ButtonDown(b)),
        RawEvent::ButtonUp(b) => Some(InputEvent::ButtonUp(b)),
        RawEvent::Scroll { delta_x, delta_y } => Some(InputEvent::Scroll { delta_x, delta_y }),
    }
}

/// The normalized image of a single non-motion event.
pub open spec fn input_of(e: RawEvent) -> InputEvent
    recommends
        !is_motion(e),
{
    match normalize_spec(e) {
        Some(ev) => ev,
        None => arbitrary(),
    }
}

/// The normalized stream for a whole raw stream: motion dropped, every
/// other event forwarded, relative order kept.
pub open spec fn normalized(s: Seq<RawEvent>) -> Seq<InputEvent>
    decreases s.len(),
{
    if s.len() == 0 {
        Seq::empty()
    } else if is_motion(s.last()) {
        normalized(s.drop_last())
    } else {
        normalized(s.drop_last()).push(input_of(s.last()))
    }
}

/// The non-motion events of a raw stream, in order.
pub open spec fn non_motion(s: Seq<RawEvent>) -> Seq<RawEvent> {
    s.filter(|e: RawEvent| !is_motion(e))
}

/// The normalized images of a stream of non-motion events, in order.
pub open spec fn images(s: Seq<RawEvent>) -> Seq<InputEvent> {
    s.map_values(|e: RawEvent| input_of(e))
}

/// Filter one raw event, exactly as the capture callback does on every
/// delivery: motion is dropped, everything else is forwarded.
pub fn normalize(e: &RawEvent) -> (r: Option<InputEvent>)
    ensures
        r == normalize_spec(*e),
{
    match *e {
        RawEvent::MouseMove => None,
        RawEvent::KeyDown(k) => Some(InputEvent::KeyDown(k)),
        RawEvent::KeyUp(k) => Some(InputEvent::KeyUp(k)),
        RawEvent::ButtonDown(b) => Some(InputEvent::ButtonDown(b)),
        RawEvent::ButtonUp(b) => Some(InputEvent::ButtonUp(b)),
        RawEvent::Scroll { delta_x, delta_y } => Some(InputEvent::Scroll { delta_x, delta_y }),
    }
}

/// Filter a whole stream of raw events in capture order.
pub fn normalize_events(events: &Vec<RawEvent>) -> (out: Vec<InputEvent>)
    ensures
        out@ == normalized(events@),
{
    let mut out: Vec<InputEvent> = Vec::new();
    for i in 0..events.len()
        invariant
            out@ == normalized(events@.take(i as int)),
    {
        match normalize(&events[i]) {
            Some(ev) => out.push(ev),
            None => {},
        }
        proof {
            assert(events@.take(i + 1).drop_last() =~= events@.take(i as int));
            assert(events@.take(i + 1).last() == events@[i as int]);
        }
    }
    proof {
        assert(events@.take(events@.len() as int) =~= events@);
    }
    out
}

/// The normalized stream contains exactly the non-motion events of the
/// raw stream, each in its normalized form, in their original relative
/// order, and no motion event at all.
pub proof fn lemma_normalized_exact(s: Seq<RawEvent>)
    ensures
        normalized(s) == images(non_motion(s)),
    decreases s.len(),
{
    reveal(Seq::filter);
    if s.len() == 0 {
        assert(non_motion(s) =~= Seq::<RawEvent>::empty());
        assert(normalized(s) =~= images(non_motion(s)));
    } else {
        let s0 = s.drop_last();
        let e = s.last();
        lemma_normalized_exact(s0);
        if is_motion(e) {
            assert(non_motion(s) == non_motion(s0));
        } else {
            assert(non_motion(s) == non_motion(s0).push(e));
            assert(images(non_motion(s0).push(e)) =~= images(non_motion(s0)).push(input_of(e)));
        }
    }
}

} // verus!
