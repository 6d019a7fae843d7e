use sigil::pump::{Pump, PumpAction, PumpEnd, PumpEvent};

fn forwarded(action: PumpAction) -> Vec<u8> {
    match action {
        PumpAction::Forward(data) => data,
        PumpAction::HalfClose => panic!("expected a forward"),
    }
}

#[test]
fn chunks_are_forwarded_in_order_and_unchanged() {
    let mut pump: Pump<String> = Pump::new();
    let mut out = Vec::new();
    for chunk in [b"hel".to_vec(), b"lo ".to_vec(), b"world".to_vec()] {
        out.extend(forwarded(pump.on_event(PumpEvent::Received(chunk))));
    }
    assert_eq!(out, b"hello world".to_vec());
    assert_eq!(pump.forwarded, 11);
    assert!(!pump.is_finished());
}

#[test]
fn end_of_stream_half_closes_destination() {
    let mut pump: Pump<String> = Pump::new();
    assert_eq!(forwarded(pump.on_event(PumpEvent::Received(vec![1, 2, 3]))), vec![1, 2, 3]);
    assert!(matches!(pump.on_event(PumpEvent::Received(Vec::new())), PumpAction::HalfClose));
    assert!(pump.is_finished());
    assert_eq!(pump.forwarded, 3);
    assert!(matches!(pump.into_end(), PumpEnd::Drained));
}

#[test]
fn empty_stream_half_closes_at_once() {
    let mut pump: Pump<String> = Pump::new();
    assert!(matches!(pump.on_event(PumpEvent::Received(Vec::new())), PumpAction::HalfClose));
    assert_eq!(pump.forwarded, 0);
    assert!(matches!(pump.into_end(), PumpEnd::Drained));
}

#[test]
fn read_failure_half_closes_and_keeps_error() {
    let mut pump: Pump<String> = Pump::new();
    forwarded(pump.on_event(PumpEvent::Received(vec![9])));
    let action = pump.on_event(PumpEvent::ReadFailed("reset".to_string()));
    assert!(matches!(action, PumpAction::HalfClose));
    match pump.into_end() {
        PumpEnd::Failed(e) => assert_eq!(e, "reset"),
        PumpEnd::Drained => panic!("expected a failure"),
    }
}

#[test]
fn write_failure_half_closes_and_keeps_error() {
    let mut pump: Pump<String> = Pump::new();
    forwarded(pump.on_event(PumpEvent::Received(vec![9, 8])));
    let action = pump.on_event(PumpEvent::WriteFailed("broken pipe".to_string()));
    assert!(matches!(action, PumpAction::HalfClose));
    assert_eq!(pump.forwarded, 2);
    match pump.into_end() {
        PumpEnd::Failed(e) => assert_eq!(e, "broken pipe"),
        PumpEnd::Drained => panic!("expected a failure"),
    }
}

#[test]
fn counter_saturates() {
    let mut pump: Pump<String> = Pump { forwarded: u64::MAX - 1, end: None };
    forwarded(pump.on_event(PumpEvent::Received(vec![0; 5])));
    assert_eq!(pump.forwarded, u64::MAX);
}
