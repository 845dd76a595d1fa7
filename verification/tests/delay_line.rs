use xross_guitar_amp::amp::cab::DelayLine;

#[test]
fn new_line_holds_fill_value_everywhere() {
    let line = DelayLine::new(4, 0.0f32);
    assert_eq!(line.len(), 4);
    for d in 0..=4 {
        assert_eq!(line.tap(d), 0.0);
    }
}

#[test]
fn write_is_read_back_at_delay_zero() {
    let mut line = DelayLine::new(8, 0.0f32);
    line.write(0.5);
    assert_eq!(line.tap(0), 0.5);
    assert_eq!(line.tap(1), 0.0);
}

#[test]
fn written_sample_comes_back_after_its_delay() {
    let mut line = DelayLine::new(5, 0i32);
    line.write(7);
    for step in 1..5 {
        line.advance();
        line.write(100 + step as i32);
        assert_eq!(line.tap(step), 7);
        assert_eq!(line.tap(0), 100 + step as i32);
    }
}

#[test]
fn tap_of_full_length_reads_the_write_head() {
    let mut line = DelayLine::new(3, 0u8);
    line.write(1);
    line.advance();
    line.write(2);
    line.advance();
    line.write(3);
    assert_eq!(line.tap(3), 3);
    assert_eq!(line.tap(2), 1);
    assert_eq!(line.tap(1), 2);
}

#[test]
fn advance_wraps_and_reuses_the_oldest_slot() {
    let mut line = DelayLine::new(2, 0u8);
    line.write(1);
    line.advance();
    line.write(2);
    line.advance();
    // the head is back on the slot that held 1
    assert_eq!(line.tap(0), 1);
    assert_eq!(line.tap(1), 2);
}

#[test]
fn fill_clears_history_but_keeps_the_head() {
    let mut line = DelayLine::new(4, 0.0f32);
    line.write(1.0);
    line.advance();
    line.write(2.0);
    line.fill(0.0);
    for d in 0..4 {
        assert_eq!(line.tap(d), 0.0);
    }
    line.write(3.0);
    line.advance();
    assert_eq!(line.tap(1), 3.0);
}

#[test]
fn phase_delay_interpolation_taps_stay_in_range() {
    // The cabinet reads taps d and d + 1 with d up to len - 1.
    let mut line = DelayLine::new(2048, 0.0f32);
    for i in 0..3000 {
        line.write(i as f32);
        let a = line.tap(2047);
        let b = line.tap(2048);
        if i >= 2047 {
            assert_eq!(a, (i - 2047) as f32);
        }
        assert_eq!(b, i as f32);
        line.advance();
    }
}
