use qnmdsol::openbci::{
    latest_sample, samples_read, BrainFlowInputParams, SessionState, SessionStep,
};

#[test]
fn serial_parameters_name_only_the_port() {
    let params = BrainFlowInputParams::for_serial("COM3");
    assert_eq!(params.serial_port, "COM3");
    assert_eq!(params.master_board, -100);
    for text in [
        &params.mac_address,
        &params.ip_address,
        &params.ip_address_aux,
        &params.ip_address_anc,
        &params.other_info,
        &params.serial_number,
        &params.file,
        &params.file_aux,
        &params.file_anc,
    ] {
        assert!(text.is_empty());
    }
    for number in [params.ip_port, params.ip_port_aux, params.ip_port_anc, params.ip_protocol, params.timeout] {
        assert_eq!(number, 0);
    }
}

#[test]
fn the_latest_sample_is_the_last_of_each_row() {
    let buffer: Vec<f64> = vec![
        0.0, 0.1, 0.2, // row 0
        1.0, 1.1, 1.2, // row 1
        2.0, 2.1, 2.2, // row 2
        3.0, 3.1, 3.2, // row 3
    ];
    assert_eq!(latest_sample(&buffer, 4, 3, &[1, 3, 2]), Some(vec![1.2, 3.2, 2.2]));
    assert_eq!(latest_sample(&buffer, 4, 1, &[0, 1, 2]), Some(vec![0.0, 0.1, 0.2]));
}

#[test]
fn rows_that_the_reading_lacks_are_left_out() {
    let buffer: Vec<f64> = vec![0.0, 0.1, 1.0, 1.1];
    assert_eq!(latest_sample(&buffer, 2, 2, &[0, 2, -1, 1]), Some(vec![0.1, 1.1]));
    assert_eq!(latest_sample(&buffer, 4, 2, &[3, 1]), Some(vec![1.1]));
    assert_eq!(latest_sample(&buffer, 2, 2, &[5, 9]), None);
}

#[test]
fn an_empty_reading_has_no_sample() {
    let buffer: Vec<f64> = vec![0.0; 10];
    assert_eq!(latest_sample(&buffer, 2, 0, &[0, 1]), None);
    assert_eq!(latest_sample(&buffer, 2, 5, &[]), None);
}

#[test]
fn a_reading_is_judged_by_buffer_and_size() {
    assert_eq!(samples_read(3, 32, 5, 160), Some(3));
    assert_eq!(samples_read(0, 32, 5, 160), Some(0));
    assert_eq!(samples_read(-4, 32, 5, 160), Some(0));
    assert_eq!(samples_read(3, 32, 5, 159), None);
}

#[test]
fn a_stream_is_started_once() {
    let mut session = SessionState::prepared();
    assert_eq!(session.next_start_step(), Some(SessionStep::StartStream));
    session.record(SessionStep::StartStream);
    assert!(session.is_streaming);
    assert_eq!(session.next_start_step(), None);
}

#[test]
fn a_session_is_stopped_then_released() {
    let mut session = SessionState::prepared();
    session.record(SessionStep::StartStream);
    assert_eq!(session.next_stop_step(), Some(SessionStep::StopStream));
    session.record(SessionStep::StopStream);
    assert_eq!(session.next_stop_step(), Some(SessionStep::Release));
    session.record(SessionStep::Release);
    assert_eq!(session.next_stop_step(), None);
    assert_eq!(session, SessionState { is_streaming: false, released: true });
    let mut idle = SessionState::prepared();
    assert_eq!(idle.next_stop_step(), Some(SessionStep::Release));
    idle.record(SessionStep::Release);
    assert_eq!(idle.next_stop_step(), None);
}
