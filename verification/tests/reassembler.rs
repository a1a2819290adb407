use aranet4::reassembler::{AbortReason, HistoryReassembler, Phase};
use aranet4::sensor::Sensor;
use aranet4::ProtocolError;

fn frame(sensor_id: u8, start: u16, count: u8, values: &[u8]) -> Vec<u8> {
    let mut p = vec![sensor_id, (start % 256) as u8, (start / 256) as u8, count];
    p.extend_from_slice(values);
    p
}

#[test]
fn two_frames_complete_a_declared_total_of_three() {
    let mut r = HistoryReassembler::new(Sensor::CO2, 3);
    assert_eq!(r.phase(), Phase::Requesting);
    r.begin();
    assert_eq!(r.phase(), Phase::AwaitingFrames);

    let id = Sensor::CO2.id();
    assert_eq!(r.step(&frame(id, 1, 2, &[100, 0, 200, 0])), Ok(()));
    assert!(!r.is_complete());
    assert_eq!(r.step(&frame(id, 3, 1, &[50, 0])), Ok(()));
    assert!(r.is_complete());

    let samples = r.into_samples();
    assert_eq!(samples, vec![Some(100), Some(200), Some(50)]);
    let physical: Vec<f32> = samples
        .iter()
        .map(|s| s.unwrap() as f32 / Sensor::CO2.scale() as f32)
        .collect();
    assert_eq!(physical, vec![100.0, 200.0, 50.0]);
}

#[test]
fn frames_may_arrive_out_of_order() {
    let mut r = HistoryReassembler::new(Sensor::Humidity, 3);
    r.begin();
    let id = Sensor::Humidity.id();
    assert_eq!(r.step(&frame(id, 3, 1, &[30])), Ok(()));
    assert_eq!(r.step(&frame(id, 1, 2, &[10, 20])), Ok(()));
    assert!(r.is_complete());
    assert_eq!(r.into_samples(), vec![Some(10), Some(20), Some(30)]);
}

#[test]
fn wrong_sensor_id_aborts_without_touching_the_buffer() {
    let mut r = HistoryReassembler::new(Sensor::CO2, 2);
    r.begin();
    let other = Sensor::Temperature.id();
    assert_eq!(
        r.step(&frame(other, 1, 1, &[7, 0])),
        Err(ProtocolError::ProtocolViolation)
    );
    assert_eq!(r.phase(), Phase::Aborted(AbortReason::ProtocolViolation));
    assert_eq!(r.into_samples(), vec![None, None]);
}

#[test]
fn out_of_range_window_aborts() {
    let mut r = HistoryReassembler::new(Sensor::CO2, 2);
    r.begin();
    let id = Sensor::CO2.id();
    // start 2 with two values would write position 3 of a series of 2
    assert_eq!(
        r.step(&frame(id, 2, 2, &[1, 0, 2, 0])),
        Err(ProtocolError::ProtocolViolation)
    );
    assert_eq!(r.phase(), Phase::Aborted(AbortReason::ProtocolViolation));
    assert_eq!(r.into_samples(), vec![None, None]);
}

#[test]
fn start_index_zero_aborts() {
    let mut r = HistoryReassembler::new(Sensor::CO2, 2);
    r.begin();
    let id = Sensor::CO2.id();
    assert_eq!(
        r.step(&frame(id, 0, 1, &[1, 0])),
        Err(ProtocolError::ProtocolViolation)
    );
    assert_eq!(r.phase(), Phase::Aborted(AbortReason::ProtocolViolation));
}

#[test]
fn repeating_a_frame_leaves_the_buffer_identical() {
    let mut a = HistoryReassembler::new(Sensor::CO2, 3);
    a.begin();
    let id = Sensor::CO2.id();
    let f = frame(id, 1, 2, &[100, 0, 200, 0]);
    assert_eq!(a.step(&f), Ok(()));
    let mut b = HistoryReassembler::new(Sensor::CO2, 3);
    b.begin();
    assert_eq!(b.step(&f), Ok(()));
    assert_eq!(b.step(&f), Ok(()));
    assert_eq!(b.phase(), a.phase());
    assert_eq!(b.written(), a.written());
    assert_eq!(a.into_samples(), b.into_samples());
}

#[test]
fn short_header_is_rejected_without_state_change() {
    let mut r = HistoryReassembler::new(Sensor::CO2, 1);
    r.begin();
    assert_eq!(
        r.step(&vec![4u8, 1, 0]),
        Err(ProtocolError::BufferUnderflow)
    );
    assert_eq!(r.phase(), Phase::AwaitingFrames);
    assert_eq!(r.into_samples(), vec![None]);
}

#[test]
fn truncated_run_is_rejected_atomically() {
    let mut r = HistoryReassembler::new(Sensor::CO2, 3);
    r.begin();
    let id = Sensor::CO2.id();
    // announces two 2-byte values but carries three bytes
    assert_eq!(
        r.step(&frame(id, 1, 2, &[100, 0, 200])),
        Err(ProtocolError::BufferUnderflow)
    );
    assert_eq!(r.phase(), Phase::AwaitingFrames);
    assert_eq!(r.written(), 0);
    assert_eq!(r.into_samples(), vec![None, None, None]);
}

#[test]
fn unreached_total_keeps_sentinels_distinguishable() {
    let mut r = HistoryReassembler::new(Sensor::CO2, 3);
    r.begin();
    let id = Sensor::CO2.id();
    assert_eq!(r.step(&frame(id, 2, 1, &[0, 0])), Ok(()));
    assert!(!r.is_complete());
    let samples = r.into_samples();
    // the written position decoded to 0, yet the unwritten ones differ
    assert_eq!(samples, vec![None, Some(0), None]);
    assert_ne!(samples[0], samples[1]);
    for raw in [0u16, 1, u16::MAX] {
        assert_ne!(samples[0], Some(raw));
    }
}

#[test]
fn zero_count_frame_is_a_no_op_that_still_checks_completion() {
    let mut r = HistoryReassembler::new(Sensor::CO2, 1);
    r.begin();
    let id = Sensor::CO2.id();
    assert_eq!(r.step(&frame(id, 1, 0, &[])), Ok(()));
    assert!(!r.is_complete());
    assert_eq!(r.written(), 0);

    let mut empty = HistoryReassembler::new(Sensor::CO2, 0);
    empty.begin();
    assert_eq!(empty.step(&frame(id, 1, 0, &[])), Ok(()));
    assert!(empty.is_complete());
}

#[test]
fn terminal_phases_ignore_further_frames() {
    let mut r = HistoryReassembler::new(Sensor::CO2, 1);
    r.begin();
    let id = Sensor::CO2.id();
    assert_eq!(r.step(&frame(id, 1, 1, &[9, 0])), Ok(()));
    assert!(r.is_complete());
    // a late stale frame changes nothing, even with a wrong id
    assert_eq!(r.step(&frame(id + 1, 1, 1, &[1, 0])), Ok(()));
    assert_eq!(r.phase(), Phase::Complete);
    assert_eq!(r.into_samples(), vec![Some(9)]);
}

#[test]
fn cancel_moves_an_inflight_retrieval_to_timeout() {
    let mut r = HistoryReassembler::new(Sensor::CO2, 2);
    r.begin();
    r.cancel();
    assert_eq!(r.phase(), Phase::Aborted(AbortReason::Timeout));

    let mut done = HistoryReassembler::new(Sensor::CO2, 0);
    done.begin();
    assert_eq!(done.step(&frame(Sensor::CO2.id(), 1, 0, &[])), Ok(()));
    done.cancel();
    assert_eq!(done.phase(), Phase::Complete);
}

#[test]
fn largest_declared_total_initializes_fully_unwritten() {
    let r = HistoryReassembler::new(Sensor::Humidity, u16::MAX);
    assert_eq!(r.total(), u16::MAX);
    assert_eq!(r.written(), 0);
    let samples = r.into_samples();
    assert_eq!(samples.len(), u16::MAX as usize);
    assert!(samples.iter().all(|s| s.is_none()));
}
