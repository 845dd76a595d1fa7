use vstd::prelude::*;

verus! {

/// The two concentric knobs of a stacked knob: the inner one sets the upper
/// parameter, the outer ring the lower one.
#[derive(Clone, Copy, Debug, PartialEq, Eq, Structural)]
pub enum KnobRing {
    Upper,
    Lower,
}

/// What the pointer did to a stacked knob during one frame.
#[derive(Clone, Copy, Debug, PartialEq, Eq, Structural)]
pub struct StackedGesture {
    pub drag_started: bool,
    pub double_clicked: bool,
    pub dragged: bool,
    pub drag_stopped: bool,
    /// The pointer lies within the inner knob (or close to its edge).
    pub on_inner: bool,
}

/// What the stacked knob does in response during that frame.
#[derive(Clone, Copy, Debug, PartialEq, Eq, Structural)]
pub struct StackedFrame {
    /// The knob under control this frame: 0 none, 1 the inner, 2 the outer;
    /// its title is highlighted.
    pub active: u8,
    /// The control code remembered for the next frame.
    pub stored: u8,
    /// The knob to set back to its default value.
    pub reset: Option<KnobRing>,
    /// The knob that the drag moves.
    pub drag: Option<KnobRing>,
}

/// The knob under the pointer.
pub open spec fn ring_at(on_inner: bool) -> KnobRing {
    if on_inner {
        KnobRing::Upper
    } else {
        KnobRing::Lower
    }
}

/// The control code of the knob under the pointer.
pub open spec fn ring_code(on_inner: bool) -> u8 {
    if on_inner {
        1
    } else {
        2
    }
}

/// A stacked knob's response to one frame's gesture, given the control code
/// remembered from the frame before.
pub open spec fn stacked_response(stored: u8, g: StackedGesture) -> StackedFrame {
    let active = if g.drag_started {
        ring_code(g.on_inner)
    } else {
        stored
    };
    StackedFrame {
        active,
        stored: if g.drag_stopped {
            0
        } else {
            active
        },
        reset: if g.double_clicked {
            Some(ring_at(g.on_inner))
        } else {
            None
        },
        drag: if g.dragged && active != 0 {
            Some(
                if active == 1 {
                    KnobRing::Upper
                } else {
                    KnobRing::Lower
                },
            )
        } else {
            None
        },
    }
}

/// A drag stays on the knob it grabbed: once a drag has started on one
/// knob (and not stopped in that frame), every following frame of the same
/// drag moves that knob, wherever the pointer has wandered since.
pub proof fn lemma_drag_stays_on_grabbed_knob(stored: u8, start: StackedGesture, later: Seq<StackedGesture>)
    requires
        start.drag_started,
        !start.drag_stopped,
        forall|i: int| 0 <= i < later.len() ==> !(#[trigger] later[i]).drag_started && !later[i].drag_stopped,
    ensures
        ({
            let code = stacked_response(stored, start).stored;
            &&& code == ring_code(start.on_inner)
            &&& forall|i: int|
                0 <= i < later.len() && (#[trigger] later[i]).dragged ==> stacked_response(code, later[i]).drag
                    == Some(ring_at(start.on_inner))
            &&& forall|i: int|
                0 <= i < later.len() ==> (#[trigger] stacked_response(code, later[i])).stored == code
        }),
{
}

/// What a frame of stacked-knob interaction does, for every remembered
/// control code and gesture: only a double click resets a knob, and it
/// resets the knob under the pointer (the inner knob sets the upper
/// parameter); a drag start takes control of the knob under the pointer,
/// otherwise the remembered control holds; a drag moves the controlled knob
/// and nothing when no knob is controlled; and a drag stop forgets the
/// control for the next frame.
pub proof fn lemma_stacked_frame_behaviour(stored: u8, g: StackedGesture)
    ensures
        ({
            let f = stacked_response(stored, g);
            &&& !g.double_clicked ==> f.reset == None::<KnobRing>
            &&& g.double_clicked && g.on_inner ==> f.reset == Some(KnobRing::Upper)
            &&& g.double_clicked && !g.on_inner ==> f.reset == Some(KnobRing::Lower)
            &&& g.drag_started && g.on_inner ==> f.active == 1
            &&& g.drag_started && !g.on_inner ==> f.active == 2
            &&& !g.drag_started ==> f.active == stored
            &&& !g.dragged ==> f.drag == None::<KnobRing>
            &&& f.active == 0 ==> f.drag == None::<KnobRing>
            &&& g.dragged && f.active == 1 ==> f.drag == Some(KnobRing::Upper)
            &&& g.dragged && f.active != 0 && f.active != 1 ==> f.drag == Some(KnobRing::Lower)
            &&& g.drag_stopped ==> f.stored == 0
            &&& !g.drag_stopped ==> f.stored == f.active
        }),
{
}

/// Decides, for one frame, which of the two knobs a drag or double click
/// acts on: a drag keeps working on the knob it started on until it stops.
pub fn stacked_knob_frame(stored: u8, gesture: StackedGesture) -> (frame: StackedFrame)
    ensures
        frame == stacked_response(stored, gesture),
        !gesture.double_clicked ==> frame.reset == None::<KnobRing>,
        gesture.double_clicked && gesture.on_inner ==> frame.reset == Some(KnobRing::Upper),
        gesture.double_clicked && !gesture.on_inner ==> frame.reset == Some(KnobRing::Lower),
        frame.active == (if gesture.drag_started {
            if gesture.on_inner {
                1u8
            } else {
                2u8
            }
        } else {
            stored
        }),
        !gesture.dragged || frame.active == 0 ==> frame.drag == None::<KnobRing>,
        gesture.dragged && frame.active == 1 ==> frame.drag == Some(KnobRing::Upper),
        gesture.dragged && frame.active != 0 && frame.active != 1 ==> frame.drag == Some(
            KnobRing::Lower,
        ),
        frame.stored == (if gesture.drag_stopped {
            0u8
        } else {
            frame.active
        }),
{
    let active = if gesture.drag_started {
        if gesture.on_inner {
            1
        } else {
            2
        }
    } else {
        stored
    };
    let reset = if gesture.double_clicked {
        if gesture.on_inner {
            Some(KnobRing::Upper)
        } else {
            Some(KnobRing::Lower)
        }
    } else {
        None
    };
    let drag = if gesture.dragged && active != 0 {
        if active == 1 {
            Some(KnobRing::Upper)
        } else {
            Some(KnobRing::Lower)
        }
    } else {
        None
    };
    let stored_next = if gesture.drag_stopped {
        0
    } else {
        active
    };
    StackedFrame { active, stored: stored_next, reset, drag }
}

} // verus!
