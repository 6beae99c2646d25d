use e_chess::bluetooth::BluetoothError;
use e_chess::ota::{
    after_begin, after_finish, after_write, decode_write, plan, OtaCommand, OtaEvent, OtaHandler,
    OtaPlan, OtaState,
};

#[test]
fn first_write_of_four_bytes_is_the_size() {
    let _handler = OtaHandler::new();
    match decode_write(true, &[0x10, 0x27, 0x00, 0x00]) {
        OtaCommand::Start { size } => assert_eq!(size, 10000),
        other => panic!("unexpected {:?}", other),
    }
    match decode_write(false, &[0x10, 0x27, 0x00, 0x00]) {
        OtaCommand::Data { data } => assert_eq!(data, vec![0x10, 0x27, 0x00, 0x00]),
        other => panic!("unexpected {:?}", other),
    }
    match decode_write(true, &[1, 2, 3]) {
        OtaCommand::Data { data } => assert_eq!(data, vec![1, 2, 3]),
        other => panic!("unexpected {:?}", other),
    }
}

#[test]
fn data_without_an_update_is_refused() {
    let data = OtaCommand::Data { data: vec![1] };
    match plan(&OtaState::Idle, &data) {
        OtaPlan::Refuse(BluetoothError::Protocol(m)) => assert_eq!(m, "OTA not in progress"),
        other => panic!("unexpected {:?}", other),
    }
    let receiving = OtaState::Receiving { expected_size: 10, bytes_received: 0 };
    assert!(matches!(plan(&receiving, &data), OtaPlan::Write));
    assert!(matches!(plan(&receiving, &OtaCommand::Start { size: 5 }), OtaPlan::Begin { size: 5 }));
}

#[test]
fn an_update_runs_until_its_size_is_reached() {
    let (state, event) = after_begin(10, true);
    assert_eq!(state, OtaState::Receiving { expected_size: 10, bytes_received: 0 });
    assert!(matches!(event, Ok(OtaEvent::OtaStarted { size: 10 })));
    let (state, done) = after_write(10, 0, 4, true);
    assert_eq!(state, OtaState::Receiving { expected_size: 10, bytes_received: 4 });
    assert!(matches!(done, Ok(false)));
    let (state, done) = after_write(10, 4, 6, true);
    assert_eq!(state, OtaState::Idle);
    assert!(matches!(done, Ok(true)));
    assert!(matches!(after_finish(true, true), Ok(OtaEvent::OtaComplete)));
}

#[test]
fn failures_end_the_update() {
    let (state, event) = after_begin(10, false);
    assert_eq!(state, OtaState::Idle);
    assert!(matches!(event, Err(BluetoothError::Transport(ref m)) if m == "OTA begin failed"));
    let (state, done) = after_write(10, 4, 2, false);
    assert_eq!(state, OtaState::Idle);
    assert!(matches!(done, Err(BluetoothError::Transport(ref m)) if m == "Write failed"));
    assert!(matches!(after_finish(false, true), Err(BluetoothError::Transport(ref m)) if m == "Finalize failed"));
    assert!(matches!(after_finish(true, false), Err(BluetoothError::Transport(ref m)) if m == "Set boot failed"));
}
