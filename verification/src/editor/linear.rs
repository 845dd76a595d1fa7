use vstd::prelude::*;

verus! {

/// What the pointer did to a linear slider during one frame.
#[derive(Clone, Copy, Debug, PartialEq, Eq, Structural)]
pub struct SliderGesture {
    pub secondary_clicked: bool,
    pub clicked: bool,
    pub dragged: bool,
}

/// What the slider does in response during that frame.
#[derive(Clone, Copy, Debug, PartialEq, Eq, Structural)]
pub struct SliderFrame {
    /// The parameter goes back to its default value.
    pub reset_to_default: bool,
    /// Text entry opens, primed with the current value.
    pub begin_edit: bool,
    /// The drag moves the value.
    pub apply_drag: bool,
    /// The slider shows the text entry (and remembers that for the next frame).
    pub editing: bool,
}

/// A slider's response to one frame's gesture, given whether it was
/// showing its text entry: a right click resets the value and leaves text
/// entry, a click opens text entry, and a drag moves the value only while
/// no text entry is open.
pub open spec fn slider_response(was_editing: bool, g: SliderGesture) -> SliderFrame {
    let editing_after_reset = !g.secondary_clicked && was_editing;
    let begin = g.clicked && !editing_after_reset;
    let editing = editing_after_reset || begin;
    SliderFrame {
        reset_to_default: g.secondary_clicked,
        begin_edit: begin,
        apply_drag: g.dragged && !editing,
        editing,
    }
}

/// What a frame of slider interaction does, for every previous state and
/// gesture: a right click always resets the value (with or without text
/// entry open); text entry opens on a click unless it was already open and
/// no right click closed it; text entry is open afterwards exactly when the
/// slider was clicked or it stayed open without a right click; and a drag
/// moves the value exactly when text entry is not open.
pub proof fn lemma_slider_frame_behaviour(was_editing: bool, g: SliderGesture)
    ensures
        slider_response(was_editing, g).reset_to_default == g.secondary_clicked,
        slider_response(was_editing, g).begin_edit == (g.clicked && (g.secondary_clicked
            || !was_editing)),
        slider_response(was_editing, g).editing == (g.clicked || (was_editing
            && !g.secondary_clicked)),
        slider_response(was_editing, g).apply_drag == (g.dragged && !slider_response(
            was_editing,
            g,
        ).editing),
{
}

/// Decides a linear slider's response to one frame's gesture.
pub fn linear_slider_frame(was_editing: bool, gesture: SliderGesture) -> (frame: SliderFrame)
    ensures
        frame == slider_response(was_editing, gesture),
        frame.reset_to_default == gesture.secondary_clicked,
        frame.begin_edit == (gesture.clicked && (gesture.secondary_clicked || !was_editing)),
        frame.editing == (gesture.clicked || (was_editing && !gesture.secondary_clicked)),
        frame.apply_drag == (gesture.dragged && !frame.editing),
{
    let mut editing = was_editing;
    if gesture.secondary_clicked {
        editing = false;
    }
    let begin_edit = gesture.clicked && !editing;
    if begin_edit {
        editing = true;
    }
    let apply_drag = gesture.dragged && !editing;
    SliderFrame {
        reset_to_default: gesture.secondary_clicked,
        begin_edit,
        apply_drag,
        editing,
    }
}

} // verus!
