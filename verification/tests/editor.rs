use xross_guitar_amp::editor::background::Background;
use xross_guitar_amp::editor::linear::{linear_slider_frame, SliderFrame, SliderGesture};
use xross_guitar_amp::editor::logo::Logo;
use xross_guitar_amp::editor::stacked::{stacked_knob_frame, KnobRing, StackedFrame, StackedGesture};

fn gesture() -> StackedGesture {
    StackedGesture {
        drag_started: false,
        double_clicked: false,
        dragged: false,
        drag_stopped: false,
        on_inner: false,
    }
}

#[test]
fn background_and_logo_construct() {
    let _bg = Background::new();
    let _logo = Logo;
}

#[test]
fn glow_fan_has_one_triangle_per_rim_vertex() {
    let idx = Background::glow_fan_indices(0, 24);
    assert_eq!(idx.len(), 72);
    assert_eq!(&idx[0..3], &[0, 1, 2]);
    assert_eq!(&idx[3..6], &[0, 2, 3]);
    assert_eq!(&idx[69..72], &[0, 24, 1]);
    assert!(idx.iter().all(|&i| i <= 24));
}

#[test]
fn glow_fan_offsets_by_center_index() {
    let idx = Background::glow_fan_indices(10, 3);
    assert_eq!(idx, vec![10, 11, 12, 10, 12, 13, 10, 13, 11]);
}

#[test]
fn glow_fan_with_no_rim_is_empty() {
    assert!(Background::glow_fan_indices(5, 0).is_empty());
}

#[test]
fn drag_started_on_inner_moves_upper_until_stopped() {
    let start = StackedGesture { drag_started: true, dragged: true, on_inner: true, ..gesture() };
    let f1 = stacked_knob_frame(0, start);
    assert_eq!(
        f1,
        StackedFrame { active: 1, stored: 1, reset: None, drag: Some(KnobRing::Upper) }
    );
    // the pointer wanders onto the outer ring: still the upper knob
    let f2 = stacked_knob_frame(f1.stored, StackedGesture { dragged: true, ..gesture() });
    assert_eq!(f2.drag, Some(KnobRing::Upper));
    let f3 = stacked_knob_frame(f2.stored, StackedGesture { drag_stopped: true, ..gesture() });
    assert_eq!(f3.active, 1);
    assert_eq!(f3.stored, 0);
    assert_eq!(f3.drag, None);
}

#[test]
fn drag_on_outer_ring_moves_lower() {
    let f = stacked_knob_frame(0, StackedGesture { drag_started: true, dragged: true, ..gesture() });
    assert_eq!(f.active, 2);
    assert_eq!(f.drag, Some(KnobRing::Lower));
}

#[test]
fn idle_knob_ignores_drag_without_target() {
    let f = stacked_knob_frame(0, StackedGesture { dragged: true, ..gesture() });
    assert_eq!(f, StackedFrame { active: 0, stored: 0, reset: None, drag: None });
}

#[test]
fn double_click_resets_knob_under_pointer() {
    let inner = stacked_knob_frame(0, StackedGesture { double_clicked: true, on_inner: true, ..gesture() });
    assert_eq!(inner.reset, Some(KnobRing::Upper));
    let outer = stacked_knob_frame(0, StackedGesture { double_clicked: true, ..gesture() });
    assert_eq!(outer.reset, Some(KnobRing::Lower));
}

#[test]
fn slider_drag_moves_value_when_not_editing() {
    let f = linear_slider_frame(false, SliderGesture { secondary_clicked: false, clicked: false, dragged: true });
    assert_eq!(
        f,
        SliderFrame { reset_to_default: false, begin_edit: false, apply_drag: true, editing: false }
    );
}

#[test]
fn slider_click_opens_text_entry_and_blocks_drag() {
    let f = linear_slider_frame(false, SliderGesture { secondary_clicked: false, clicked: true, dragged: true });
    assert_eq!(
        f,
        SliderFrame { reset_to_default: false, begin_edit: true, apply_drag: false, editing: true }
    );
}

#[test]
fn slider_right_click_resets_and_leaves_text_entry() {
    let f = linear_slider_frame(true, SliderGesture { secondary_clicked: true, clicked: false, dragged: true });
    assert_eq!(
        f,
        SliderFrame { reset_to_default: true, begin_edit: false, apply_drag: true, editing: false }
    );
}

#[test]
fn slider_click_while_editing_keeps_editing() {
    let f = linear_slider_frame(true, SliderGesture { secondary_clicked: false, clicked: true, dragged: false });
    assert_eq!(
        f,
        SliderFrame { reset_to_default: false, begin_edit: false, apply_drag: false, editing: true }
    );
}
