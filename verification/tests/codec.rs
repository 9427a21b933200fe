use clickr::target::{decode_target, encode_target, DecodeError, MouseTarget};

#[test]
fn encode_all_targets() {
    assert_eq!(encode_target(MouseTarget::Primary), "Left");
    assert_eq!(encode_target(MouseTarget::Middle), "Middle");
    assert_eq!(encode_target(MouseTarget::Secondary), "Right");
}

#[test]
fn decode_all_labels() {
    assert_eq!(decode_target(&"Left".to_string()), Ok(MouseTarget::Primary));
    assert_eq!(decode_target(&"Middle".to_string()), Ok(MouseTarget::Middle));
    assert_eq!(decode_target(&"Right".to_string()), Ok(MouseTarget::Secondary));
}

#[test]
fn decode_rejects_unrecognized_labels() {
    assert_eq!(decode_target(&"left".to_string()), Err(DecodeError::UnrecognizedLabel));
    assert_eq!(decode_target(&"".to_string()), Err(DecodeError::UnrecognizedLabel));
    assert_eq!(decode_target(&"Back".to_string()), Err(DecodeError::UnrecognizedLabel));
    assert_eq!(decode_target(&"Left ".to_string()), Err(DecodeError::UnrecognizedLabel));
}

#[test]
fn codec_round_trips() {
    for target in [MouseTarget::Primary, MouseTarget::Middle, MouseTarget::Secondary] {
        let label = encode_target(target).to_string();
        assert_eq!(decode_target(&label), Ok(target));
    }
}
