use rotary_encoder::direction::classify;
use rotary_encoder::direction::label;
use rotary_encoder::direction::Direction;
use rotary_encoder::encoder::EncoderState;

#[test]
fn equal_levels_classify_right() {
    assert_eq!(classify(true, true), Direction::Right);
    assert_eq!(classify(false, false), Direction::Right);
}

#[test]
fn unequal_levels_classify_left() {
    assert_eq!(classify(true, false), Direction::Left);
    assert_eq!(classify(false, true), Direction::Left);
}

#[test]
fn clock_high_data_high_reports_right() {
    let mut encoder = EncoderState::new();
    encoder.notify_changed(true, true);
    assert_eq!(encoder.take_pending_turn(), Some(Direction::Right));
}

#[test]
fn clock_high_data_low_reports_left() {
    let mut encoder = EncoderState::new();
    encoder.notify_changed(true, false);
    assert_eq!(encoder.take_pending_turn(), Some(Direction::Left));
}

#[test]
fn clock_low_data_high_reports_left() {
    let mut encoder = EncoderState::new();
    encoder.notify_changed(false, true);
    assert_eq!(encoder.take_pending_turn(), Some(Direction::Left));
}

#[test]
fn second_drain_returns_none() {
    let mut encoder = EncoderState::new();
    encoder.notify_changed(false, false);
    assert_eq!(encoder.take_pending_turn(), Some(Direction::Right));
    assert_eq!(encoder.take_pending_turn(), None);
}

#[test]
fn no_change_event_means_no_output() {
    let mut encoder = EncoderState::new();
    assert_eq!(encoder.take_pending_turn(), None);
    assert_eq!(encoder.take_pending_turn(), None);
    assert_eq!(encoder.take_pending_turn(), None);
}

#[test]
fn rapid_second_event_overwrites_first() {
    let mut encoder = EncoderState::new();
    encoder.notify_changed(true, true);
    encoder.notify_changed(true, false);
    assert_eq!(encoder.take_pending_turn(), Some(Direction::Left));
    assert_eq!(encoder.take_pending_turn(), None);
}

#[test]
fn overwrite_works_both_ways() {
    let mut encoder = EncoderState::new();
    encoder.notify_changed(false, true);
    encoder.notify_changed(false, false);
    assert_eq!(encoder.take_pending_turn(), Some(Direction::Right));
    assert_eq!(encoder.take_pending_turn(), None);
}

#[test]
fn labels_match_report_text() {
    assert_eq!(label(Direction::Left), "Left");
    assert_eq!(label(Direction::Right), "Right");
}
