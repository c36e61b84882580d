//! The window picker: while the picker icon is dragged, the window under the
//! cursor is highlighted by inverting a frame around it, and its details are
//! shown.
use vstd::prelude::*;

verus! {

/// What happens to the picker icon.
#[derive(Clone, Copy, Debug, PartialEq, Eq, Structural)]
pub enum PickerEvent {
    /// The icon is pressed: a new pick starts.
    Push,
    /// The icon is dragged over the window `hwnd` (0 where there is none).
    Drag { hwnd: u64 },
    /// The icon is released.
    Released,
}

/// What the picker does on an event: the window it now remembers, the
/// windows whose frame to invert, in order, and the window whose details to
/// show.
#[derive(Clone, Copy, Debug, PartialEq, Eq, Structural)]
pub struct PickerStep {
    pub last_hwnd: u64,
    pub invert_first: Option<u64>,
    pub invert_second: Option<u64>,
    pub show: Option<u64>,
}

pub open spec fn spec_picker_step(last_hwnd: u64, event: PickerEvent) -> PickerStep {
    match event {
        PickerEvent::Push => PickerStep {
            last_hwnd: 0,
            invert_first: None,
            invert_second: None,
            show: None,
        },
        PickerEvent::Drag { hwnd } => if hwnd == 0 {
            PickerStep { last_hwnd, invert_first: None, invert_second: None, show: None }
        } else if last_hwnd != hwnd {
            PickerStep {
                last_hwnd: hwnd,
                invert_first: if last_hwnd != 0 {
                    Some(last_hwnd)
                } else {
                    None
                },
                invert_second: Some(hwnd),
                show: Some(hwnd),
            }
        } else {
            PickerStep { last_hwnd: hwnd, invert_first: None, invert_second: None, show: Some(hwnd) }
        },
        PickerEvent::Released => PickerStep {
            last_hwnd,
            invert_first: if last_hwnd != 0 {
                Some(last_hwnd)
            } else {
                None
            },
            invert_second: None,
            show: None,
        },
    }
}

/// One event of the picker: pressing forgets the last window; dragging onto
/// another window restores the frame of the previous one and inverts that of
/// the new one, and shows its details; releasing restores the frame of the
/// last window.
pub fn picker_step(last_hwnd: u64, event: PickerEvent) -> (step: PickerStep)
    ensures
        step == spec_picker_step(last_hwnd, event),
{
    match event {
        PickerEvent::Push => PickerStep {
            last_hwnd: 0,
            invert_first: None,
            invert_second: None,
            show: None,
        },
        PickerEvent::Drag { hwnd } => {
            if hwnd == 0 {
                PickerStep { last_hwnd, invert_first: None, invert_second: None, show: None }
            } else if last_hwnd != hwnd {
                PickerStep {
                    last_hwnd: hwnd,
                    invert_first: if last_hwnd != 0 {
                        Some(last_hwnd)
                    } else {
                        None
                    },
                    invert_second: Some(hwnd),
                    show: Some(hwnd),
                }
            } else {
                PickerStep {
                    last_hwnd: hwnd,
                    invert_first: None,
                    invert_second: None,
                    show: Some(hwnd),
                }
            }
        },
        PickerEvent::Released => PickerStep {
            last_hwnd,
            invert_first: if last_hwnd != 0 {
                Some(last_hwnd)
            } else {
                None
            },
            invert_second: None,
            show: None,
        },
    }
}

pub open spec fn option_seq(o: Option<u64>) -> Seq<u64> {
    match o {
        Some(h) => seq![h],
        None => Seq::empty(),
    }
}

/// The frames inverted by one step, in order.
pub open spec fn step_inversions(s: PickerStep) -> Seq<u64> {
    option_seq(s.invert_first) + option_seq(s.invert_second)
}

/// The window remembered and the frames inverted over a run of events.
pub open spec fn picker_run(last_hwnd: u64, events: Seq<PickerEvent>) -> (u64, Seq<u64>)
    decreases events.len(),
{
    if events.len() == 0 {
        (last_hwnd, Seq::empty())
    } else {
        let s = spec_picker_step(last_hwnd, events[0]);
        let rest = picker_run(s.last_hwnd, events.drop_first());
        (rest.0, step_inversions(s) + rest.1)
    }
}

/// How many times `w` occurs.
pub open spec fn occurrences(s: Seq<u64>, w: u64) -> nat
    decreases s.len(),
{
    if s.len() == 0 {
        0
    } else {
        (if s[0] == w {
            1nat
        } else {
            0nat
        }) + occurrences(s.drop_first(), w)
    }
}

proof fn lemma_occurrences_concat(a: Seq<u64>, b: Seq<u64>, w: u64)
    ensures
        occurrences(a + b, w) == occurrences(a, w) + occurrences(b, w),
    decreases a.len(),
{
    if a.len() > 0 {
        lemma_occurrences_concat(a.drop_first(), b, w);
        assert((a + b).drop_first() =~= a.drop_first() + b);
    } else {
        assert(a + b =~= b);
    }
}

pub open spec fn marked(h: u64, w: u64) -> bool {
    h == w && h != 0
}

pub open spec fn all_drags(events: Seq<PickerEvent>) -> bool {
    forall|i: int| 0 <= i < events.len() ==> (#[trigger] events[i]) is Drag
}

/// While the icon is dragged, a window's frame has been inverted an odd
/// number of times exactly when it is the window remembered at the end and
/// not the one remembered at the start, or the other way round. In
/// particular, from a fresh pick (nothing remembered), only the window
/// remembered now has been inverted an odd number of times.
pub proof fn lemma_drag_parity(last_hwnd: u64, events: Seq<PickerEvent>, w: u64)
    requires
        all_drags(events),
    ensures
        (occurrences(picker_run(last_hwnd, events).1, w) % 2 == 1) == (marked(last_hwnd, w)
            != marked(picker_run(last_hwnd, events).0, w)),
    decreases events.len(),
{
    if events.len() > 0 {
        let s = spec_picker_step(last_hwnd, events[0]);
        let rest = events.drop_first();
        assert forall|i: int| 0 <= i < rest.len() implies (#[trigger] rest[i]) is Drag by {
            assert(rest[i] == events[i + 1]);
        }
        assert(events[0] is Drag);
        lemma_drag_parity(s.last_hwnd, rest, w);
        lemma_occurrences_concat(step_inversions(s), picker_run(s.last_hwnd, rest).1, w);
        let inv = step_inversions(s);
        reveal_with_fuel(occurrences, 3);
        if let PickerEvent::Drag { hwnd } = events[0] {
            if hwnd == 0 || hwnd == last_hwnd {
                assert(inv =~= Seq::<u64>::empty());
                assert(occurrences(inv, w) == 0);
            } else if last_hwnd != 0 {
                assert(inv =~= seq![last_hwnd, hwnd]);
                assert(inv.drop_first() =~= seq![hwnd]);
                assert(inv.drop_first().drop_first() =~= Seq::<u64>::empty());
                assert(occurrences(inv, w) == (if last_hwnd == w { 1nat } else { 0nat }) + (
                if hwnd == w {
                    1nat
                } else {
                    0nat
                }));
            } else {
                assert(inv =~= seq![hwnd]);
                assert(inv.drop_first() =~= Seq::<u64>::empty());
                assert(occurrences(inv, w) == (if hwnd == w { 1nat } else { 0nat }));
            }
        }
    }
}

/// A pick leaves every window as it found it: from pressing the icon,
/// through any drags, to releasing it, every frame is inverted an even
/// number of times, so each inversion is undone.
pub proof fn lemma_pick_restores_windows(last_hwnd: u64, drags: Seq<PickerEvent>, w: u64)
    requires
        all_drags(drags),
    ensures
        occurrences(
            picker_run(last_hwnd, seq![PickerEvent::Push] + drags + seq![PickerEvent::Released]).1,
            w,
        ) % 2 == 0,
{
    let events = seq![PickerEvent::Push] + drags + seq![PickerEvent::Released];
    lemma_drag_parity(0, drags, w);
    let mid = picker_run(0, drags);
    lemma_run_append_release(0, drags);
    assert(events.drop_first() =~= drags + seq![PickerEvent::Released]);
    assert(step_inversions(spec_picker_step(last_hwnd, PickerEvent::Push)) =~= Seq::<u64>::empty());
    assert(picker_run(last_hwnd, events).1 =~= picker_run(0, drags + seq![
        PickerEvent::Released,
    ]).1);
    let fin = step_inversions(spec_picker_step(mid.0, PickerEvent::Released));
    lemma_occurrences_concat(mid.1, fin, w);
    reveal_with_fuel(occurrences, 2);
    if mid.0 != 0 {
        assert(fin =~= seq![mid.0]);
        assert(fin.drop_first() =~= Seq::<u64>::empty());
        assert(occurrences(fin, w) == (if mid.0 == w { 1nat } else { 0nat }));
    } else {
        assert(fin =~= Seq::<u64>::empty());
        assert(occurrences(fin, w) == 0);
    }
    assert(Seq::<u64>::empty() + picker_run(0, drags + seq![PickerEvent::Released]).1
        =~= picker_run(0, drags + seq![PickerEvent::Released]).1);
}

/// Running events and then releasing the icon inverts what the events
/// inverted, then the frame of the window remembered at their end.
proof fn lemma_run_append_release(last_hwnd: u64, events: Seq<PickerEvent>)
    ensures
        picker_run(last_hwnd, events + seq![PickerEvent::Released]).1 == picker_run(
            last_hwnd,
            events,
        ).1 + step_inversions(
            spec_picker_step(picker_run(last_hwnd, events).0, PickerEvent::Released),
        ),
    decreases events.len(),
{
    let all = events + seq![PickerEvent::Released];
    if events.len() == 0 {
        let s = spec_picker_step(last_hwnd, PickerEvent::Released);
        assert(all =~= seq![PickerEvent::Released]);
        assert(all.drop_first() =~= Seq::<PickerEvent>::empty());
        assert(picker_run(s.last_hwnd, all.drop_first()) == (s.last_hwnd, Seq::<u64>::empty()));
        assert(picker_run(last_hwnd, events) == (last_hwnd, Seq::<u64>::empty()));
        assert(step_inversions(s) + Seq::<u64>::empty() =~= step_inversions(s));
        assert(Seq::<u64>::empty() + step_inversions(s) =~= step_inversions(s));
    } else {
        let s = spec_picker_step(last_hwnd, events[0]);
        assert(all.drop_first() =~= events.drop_first() + seq![PickerEvent::Released]);
        assert(all[0] == events[0]);
        lemma_run_append_release(s.last_hwnd, events.drop_first());
        assert(picker_run(last_hwnd, all).1 =~= picker_run(last_hwnd, events).1 + step_inversions(
            spec_picker_step(picker_run(last_hwnd, events).0, PickerEvent::Released),
        ));
    }
}

} // verus!
