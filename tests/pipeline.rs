use tick_core::calendar::ClockTime;
use tick_core::channel::LatestValueChannel;
use tick_core::clock::{adjust, advance, SoftwareClock, FIELD_HOUR, FIELD_YEAR, FIELD_MONTH, FIELD_SECOND, CLOCK_FIELDS};
use tick_core::display::{angle_text, clock_frame, date_text, time_text, weekday_name, Axis, ClockScreen, CursorBlink, Underline};
use tick_core::edit_mode::{ButtonAction, ButtonEvent, EditMode};
use tick_core::encoder::{corrected_delta, start_decoder, QuadratureDecoder};
use tick_core::estimator::{calibrate, decode_vector, dlpf_register_value, Estimator, EstimatorError, RawVector, Sample};

fn at(y: i32, mo: u32, d: u32, h: u32, mi: u32, s: u32) -> ClockTime {
    ClockTime::from_ymd_hms(y, mo, d, h, mi, s).unwrap()
}

#[test]
fn channel_single_slot_keeps_last_of_three() {
    let mut c = LatestValueChannel::new(1);
    c.send(1);
    c.send(2);
    c.send(3);
    assert_eq!(c.len(), 1);
    assert_eq!(c.try_peek(), Some(3));
    assert_eq!(c.try_receive(), Some(3));
    assert_eq!(c.try_receive(), None);
}

#[test]
fn channel_full_evicts_oldest_and_peek_keeps_value() {
    let mut c = LatestValueChannel::new(3);
    for v in 1..=5 {
        c.send(v);
    }
    assert_eq!(c.len(), 3);
    assert_eq!(c.try_peek(), Some(5));
    assert_eq!(c.try_peek(), Some(5));
    c.clear();
    assert_eq!(c.try_peek(), None);
    assert_eq!(c.capacity(), 3);
}

#[test]
fn encoder_wrap_scenario() {
    let counts = [100u16, 103, 65530, 65533];
    let deltas: Vec<i32> = counts.windows(2).map(|w| corrected_delta(w[0], w[1])).collect();
    assert_eq!(deltas, vec![3, -109, 3]);
    let mut out = LatestValueChannel::new(3);
    let mut dec = start_decoder(counts[0], 4, &mut out);
    assert_eq!(out.try_receive(), Some(0));
    let mut emitted = Vec::new();
    for &c in &counts[1..] {
        if let Some(d) = dec.poll_into(c, &mut out) {
            emitted.push(d);
        }
    }
    assert_eq!(emitted, vec![-26]);
    assert_eq!(out.try_peek(), Some(-26));
    assert_eq!(dec.pending_motion(), 1);
    let net: i64 = deltas.iter().map(|&d| d as i64).sum();
    assert_eq!(emitted.iter().map(|&d| d as i64 * 4).sum::<i64>() + dec.pending_motion(), net);
}

#[test]
fn encoder_wraps_forward_and_backward() {
    assert_eq!(corrected_delta(65535, 2), 3);
    assert_eq!(corrected_delta(2, 65535), -3);
    assert_eq!(corrected_delta(0, 32767), 32767);
    assert_eq!(corrected_delta(0, 32768), -32768);
    assert_eq!(corrected_delta(32768, 0), -32768);
}

#[test]
fn encoder_smoothing_keeps_sign_of_remainder() {
    let mut dec = QuadratureDecoder::new(1000, 4);
    assert_eq!(dec.poll(997), None);
    assert_eq!(dec.poll(993), Some(-1));
    assert_eq!(dec.pending_motion(), -3);
    assert_eq!(dec.poll(1003), Some(1));
    assert_eq!(dec.pending_motion(), 3);
}

fn press(m: &mut EditMode, out: &mut LatestValueChannel<u32>) -> ButtonAction {
    assert!(matches!(m.handle(ButtonEvent::FallingEdge, out), ButtonAction::Debounce));
    let a = m.handle(ButtonEvent::Settled { high: false }, out);
    assert!(matches!(m.handle(ButtonEvent::RisingEdge, out), ButtonAction::Wait));
    a
}

#[test]
fn edit_mode_full_cycle_returns_to_normal() {
    let mut m = EditMode::new(CLOCK_FIELDS);
    let mut out = LatestValueChannel::new(1);
    for expected in [1u32, 2, 3, 4, 5, 6, 0] {
        assert!(matches!(press(&mut m, &mut out), ButtonAction::Selected(f) if f == expected));
        assert_eq!(out.try_peek(), Some(expected));
    }
    assert_eq!(m.selected(), 0);
}

#[test]
fn edit_mode_bounce_is_discarded() {
    let mut m = EditMode::new(CLOCK_FIELDS);
    let mut out = LatestValueChannel::new(1);
    assert!(matches!(m.handle(ButtonEvent::FallingEdge, &mut out), ButtonAction::Debounce));
    assert!(matches!(m.handle(ButtonEvent::Settled { high: true }, &mut out), ButtonAction::Wait));
    assert_eq!(m.selected(), 0);
    assert_eq!(out.try_peek(), None);
    assert!(matches!(m.handle(ButtonEvent::RisingEdge, &mut out), ButtonAction::Wait));
    assert!(matches!(m.handle(ButtonEvent::Settled { high: false }, &mut out), ButtonAction::Wait));
    assert_eq!(m.selected(), 0);
    assert!(matches!(press(&mut m, &mut out), ButtonAction::Selected(1)));
}

#[test]
fn edit_mode_advance_wraps() {
    let mut m = EditMode::new(2);
    assert_eq!(m.advance(), 1);
    assert_eq!(m.advance(), 2);
    assert_eq!(m.advance(), 0);
}

#[test]
fn clock_hour_edit_crosses_midnight() {
    let t = at(2025, 7, 20, 22, 0, 0);
    assert_eq!(adjust(t, FIELD_HOUR, 3), at(2025, 7, 21, 1, 0, 0));
    assert_eq!(adjust(t, FIELD_HOUR, -23), at(2025, 7, 19, 23, 0, 0));
}

#[test]
fn clock_field_units() {
    let t = at(2024, 1, 31, 12, 0, 0);
    assert_eq!(adjust(t, FIELD_YEAR, 1), at(2025, 1, 30, 12, 0, 0));
    assert_eq!(adjust(t, FIELD_MONTH, 1), at(2024, 3, 1, 12, 0, 0));
    assert_eq!(adjust(t, FIELD_SECOND, -61), at(2024, 1, 31, 11, 58, 59));
    assert_eq!(adjust(t, 0, 5), t);
    assert_eq!(adjust(t, 7, 5), t);
}

#[test]
fn clock_out_of_range_edit_is_discarded() {
    let t = at(262142, 12, 1, 0, 0, 0);
    assert_eq!(adjust(t, FIELD_YEAR, 1), t);
    assert_eq!(adjust(t, FIELD_YEAR, i32::MAX), t);
    assert_eq!(adjust(t, FIELD_YEAR, i32::MIN), t);
    let u = at(-262143, 1, 1, 0, 0, 0);
    assert_eq!(adjust(u, FIELD_SECOND, -1), u);
}

#[test]
fn clock_advances_by_elapsed_time() {
    let t = at(2025, 7, 20, 23, 59, 59);
    let u = advance(t, 1000);
    assert_eq!(u, at(2025, 7, 21, 0, 0, 0));
    let v = advance(at(2025, 7, 20, 18, 0, 0), 30);
    assert_eq!(v.nanosecond, 30_000_000);
    assert_eq!(v.second, 0);
}

#[test]
fn clock_tick_publishes_only_changes() {
    let start = at(2025, 7, 20, 18, 0, 0);
    let mut clock = SoftwareClock::new(start);
    let mut deltas = LatestValueChannel::new(3);
    let mut out = LatestValueChannel::new(1);
    assert!(clock.tick(None, &mut deltas, 30, &mut out));
    assert_eq!(out.try_peek().unwrap().nanosecond, 30_000_000);
    deltas.send(2);
    assert!(clock.tick(Some(FIELD_HOUR), &mut deltas, 30, &mut out));
    let t = clock.time();
    assert_eq!((t.hour, t.minute), (20, 0));
    assert_eq!(deltas.len(), 0);
    assert!(!clock.tick(None, &mut deltas, 30, &mut out));
    assert_eq!(clock.editing(), FIELD_HOUR);
    assert!(clock.tick(Some(0), &mut deltas, 30, &mut out));
}

#[test]
fn calendar_rejects_invalid_dates() {
    assert!(ClockTime::from_ymd_hms(2023, 2, 29, 0, 0, 0).is_none());
    assert!(ClockTime::from_ymd_hms(2024, 2, 29, 0, 0, 0).is_some());
    assert!(ClockTime::from_ymd_hms(2024, 13, 1, 0, 0, 0).is_none());
    assert!(ClockTime::from_ymd_hms(2024, 1, 1, 24, 0, 0).is_none());
    assert!(ClockTime::from_ymd_hms(262143, 1, 1, 0, 0, 0).is_none());
}

fn sample(a: (i16, i16, i16), g: (i16, i16, i16)) -> Sample {
    Sample { accel: RawVector { x: a.0, y: a.1, z: a.2 }, gyro: RawVector { x: g.0, y: g.1, z: g.2 } }
}

#[test]
fn calibration_is_exact_mean_less_gravity() {
    let samples = vec![sample((10, -4, 8200), (1, 2, -3)), sample((20, -6, 8194), (3, 2, -1))];
    let o = calibrate(&samples, 8192).unwrap();
    assert_eq!(o.count, 2);
    assert_eq!((o.accel.x, o.accel.y, o.accel.z), (30, -10, 16394 - 2 * 8192));
    assert_eq!((o.gyro.x, o.gyro.y, o.gyro.z), (4, 4, -4));
    assert!(calibrate(&Vec::new(), 8192).is_none());
}

#[test]
fn estimator_phases() {
    let mut e = Estimator::new(2, 8192);
    e.configured(true);
    assert_eq!(e.reading(Some(sample((10, -4, 8200), (1, 2, -3)))), None);
    assert!(!e.is_running());
    assert_eq!(e.reading(Some(sample((20, -6, 8194), (3, 2, -1)))), None);
    assert!(e.is_running());
    let c = e.reading(Some(sample((15, -5, 8197), (2, 2, -2)))).unwrap();
    assert_eq!(c.scale, 2);
    assert_eq!((c.accel.x, c.accel.y, c.accel.z), (0, 0, 2 * 8197 - 10));
    assert_eq!((c.gyro.x, c.gyro.y, c.gyro.z), (0, 0, 0));
    e.reading(None);
    assert_eq!(e.failure(), Some(EstimatorError::Bus));
}

#[test]
fn estimator_failures() {
    let mut e = Estimator::new(100, 8192);
    e.configured(false);
    assert_eq!(e.failure(), Some(EstimatorError::Bus));
    let mut e = Estimator::new(100, 8192);
    e.configured(true);
    e.reading(Some(sample((0, 0, 8192), (0, 0, 0))));
    e.deadline_elapsed();
    assert_eq!(e.failure(), Some(EstimatorError::CalibrationTimeout));
    assert!(e.offsets().is_none());
}

#[test]
fn raw_words_are_big_endian_twos_complement() {
    let v = decode_vector(&[0x00, 0x10, 0xFF, 0xFE, 0x80, 0x00]);
    assert_eq!(v, RawVector { x: 16, y: -2, z: -32768 });
}

#[test]
fn dlpf_keeps_three_low_bits() {
    assert_eq!(dlpf_register_value(2), 2);
    assert_eq!(dlpf_register_value(10), 2);
}

#[test]
fn clock_texts() {
    let t = at(2025, 7, 20, 18, 5, 9);
    assert_eq!(date_text(&t), "2025-07-20");
    assert_eq!(time_text(&t), "18:05:09");
    assert_eq!(weekday_name(&t), ("Sunday", 6));
    assert_eq!(weekday_name(&at(1970, 1, 1, 0, 0, 0)).0, "Thursday");
    assert_eq!(date_text(&at(-5, 3, 1, 0, 0, 0)), "-005-03-01");
    let f = clock_frame(&t, 4, true);
    assert_eq!(f.weekday_x, 40);
    assert_eq!(f.cursor, Some(Underline { x0: 24, x1: 44, y: 40 }));
    assert_eq!(clock_frame(&t, 4, false).cursor, None);
    assert_eq!(clock_frame(&t, 0, true).cursor, None);
}

#[test]
fn angle_text_sign_column() {
    assert_eq!(angle_text(Axis::Pitch, true, 12, 34), "pitch:- 12.34");
    assert_eq!(angle_text(Axis::Yaw, false, 180, 5), "yaw  : 180.05");
    assert_eq!(angle_text(Axis::Roll, true, 0, 4), "roll :-  0.04");
}

#[test]
fn cursor_blinks_per_interval() {
    let mut b = CursorBlink::new(0, 500);
    assert!(!b.update(499));
    assert!(b.update(500));
    assert!(b.update(900));
    assert!(!b.update(1000));
}

#[test]
fn clock_screen_takes_newest_time_and_field() {
    let t = at(2025, 7, 20, 18, 0, 0);
    let mut screen = ClockScreen::new(t, 0, 500);
    let mut times = LatestValueChannel::new(2);
    let mut fields = LatestValueChannel::new(1);
    times.send(at(2025, 7, 20, 18, 0, 1));
    times.send(at(2025, 7, 20, 18, 0, 2));
    fields.send(1);
    let f = screen.refresh(600, &mut times, &fields);
    assert_eq!(f.time, "18:00:02");
    assert_eq!(f.cursor, Some(Underline { x0: 24, x1: 56, y: 18 }));
    assert_eq!(fields.try_peek(), Some(1));
    let f = screen.refresh(700, &mut times, &fields);
    assert_eq!(f.time, "18:00:02");
    assert_eq!(f.cursor, Some(Underline { x0: 24, x1: 56, y: 18 }));
}
