use mqtt_device::msg::{DataFields, LoopAction, LoopEvent, MsgProcessor, Outcome};
use mqtt_device::sensor::SensorData;

fn process(msg: &[u8]) -> Outcome {
    MsgProcessor::process(&msg.to_vec())
}

fn sanitize(msg: &[u8]) -> Option<String> {
    MsgProcessor::sanitize_serial_msg(&msg.to_vec())
}

fn fields(outcome: Outcome) -> DataFields {
    match outcome {
        Outcome::Data(fields) => fields,
        _ => panic!("not a data message"),
    }
}

#[test]
fn a_message_begins_at_the_first_type_byte() {
    assert_eq!(sanitize(b":1;2;3"), Some(":1;2;3".to_string()));
    assert_eq!(sanitize(b"\xff\x00noise:1;2;3"), Some(":1;2;3".to_string()));
    assert_eq!(sanitize(b">:x"), Some(">:x".to_string()));
    assert_eq!(sanitize(b"a:>"), Some(":>".to_string()));
    assert_eq!(sanitize(b":"), Some(":".to_string()));
}

#[test]
fn without_a_type_byte_there_is_no_message() {
    assert_eq!(sanitize(b""), None);
    assert_eq!(sanitize(b"1;2;3"), None);
    assert_eq!(sanitize(b"\xff\xfe"), None);
}

#[test]
fn a_message_that_is_not_text_is_none() {
    assert_eq!(sanitize(b":1;\xff;3"), None);
    assert!(matches!(process(b":1;\xff;3"), Outcome::Ignored));
}

#[test]
fn data_messages_are_taken_apart() {
    let data = fields(process(b":512;21.5;40.25"));
    assert_eq!(data.light, 512);
    assert_eq!(data.temp, "21.5");
    assert_eq!(data.humidity, "40.25");
}

#[test]
fn noise_in_front_and_pieces_behind_make_no_difference() {
    let data = fields(process(b"\x80\x01junk:-7;+1;\xc3\xa9;more;;"));
    assert_eq!(data.light, -7);
    assert_eq!(data.temp, "+1");
    assert_eq!(data.humidity, "\u{e9}");
}

#[test]
fn empty_values_are_kept_for_the_reader() {
    let data = fields(process(b":0;;"));
    assert_eq!(data.light, 0);
    assert_eq!(data.temp, "");
    assert_eq!(data.humidity, "");
}

#[test]
fn malformed_data_messages() {
    for msg in [":", ":1", ":1;2", ":;2;3", ":x;2;3", ":1.5;2;3", ":40000;2;3", "::1;2;3", ": 1;2;3"] {
        assert!(matches!(process(msg.as_bytes()), Outcome::Malformed), "{msg}");
    }
}

#[test]
fn messages_of_another_kind_are_unexpected() {
    match process(b"xx>hello") {
        Outcome::Unexpected(text) => assert_eq!(text, "hello"),
        _ => panic!("not an unexpected message"),
    }
    match process(b">") {
        Outcome::Unexpected(text) => assert_eq!(text, ""),
        _ => panic!("not an unexpected message"),
    }
}

#[test]
fn bytes_without_a_message_are_ignored() {
    assert!(matches!(process(b""), Outcome::Ignored));
    assert!(matches!(process(b"hello"), Outcome::Ignored));
}

#[test]
fn format_data_msg_wants_three_pieces() {
    assert!(MsgProcessor::format_data_msg("1;2").is_err());
    assert!(MsgProcessor::format_data_msg("").is_err());
    let data = MsgProcessor::format_data_msg("32767;a;b;c").unwrap();
    assert_eq!((data.light, data.temp.as_str(), data.humidity.as_str()), (32767, "a", "b"));
}

#[test]
fn a_measurement_wants_both_numbers() {
    let data = fields(process(b":5;21.5;40.25"));
    let temp: f32 = data.temp.parse().unwrap();
    let humidity: f32 = data.humidity.parse().unwrap();
    assert_eq!(
        data.sensor_data(Some(temp.to_bits()), Some(humidity.to_bits())),
        Ok(SensorData { light: 5, temp: 21.5f32.to_bits(), humidity: 40.25f32.to_bits() })
    );
    assert_eq!(data.sensor_data(None, Some(1)), Err(()));
    assert_eq!(data.sensor_data(Some(1), None), Err(()));
    assert_eq!(data.sensor_data(None, None), Err(()));
}

#[test]
fn events_and_actions() {
    assert!(matches!(MsgProcessor::on_event(&LoopEvent::Stop), LoopAction::Exit));
    assert!(matches!(MsgProcessor::on_event(&LoopEvent::Other), LoopAction::Skip));
    assert!(matches!(MsgProcessor::on_event(&LoopEvent::Failed), LoopAction::Report));
    match MsgProcessor::on_event(&LoopEvent::Publish(b":1;2;3".to_vec())) {
        LoopAction::Handle(outcome) => assert_eq!(fields(outcome).light, 1),
        _ => panic!("the message is to be handled"),
    }
    assert!(matches!(
        MsgProcessor::on_event(&LoopEvent::Publish(b"".to_vec())),
        LoopAction::Handle(Outcome::Ignored)
    ));
}
