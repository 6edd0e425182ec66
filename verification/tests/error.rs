use sbv2_core::error::{ErrorKind, TtsError};

#[test]
fn every_failure_has_its_family() {
    assert_eq!(
        TtsError::InvalidStyleId { style_id: 4, max_id: 3 }.kind(),
        ErrorKind::Validation
    );
    assert_eq!(TtsError::InvalidStyleShape.kind(), ErrorKind::Validation);
    assert_eq!(TtsError::Misaligned.kind(), ErrorKind::Alignment);
    assert_eq!(TtsError::UnknownMora("ー".to_string()).kind(), ErrorKind::Lookup);
    assert_eq!(TtsError::UnknownModel("a".to_string()).kind(), ErrorKind::Lookup);
    assert_eq!(TtsError::BadContainer.kind(), ErrorKind::Format);
    assert_eq!(TtsError::Io("disk".to_string()).kind(), ErrorKind::Io);
}

#[test]
fn an_invalid_style_id_is_told_with_the_largest_valid_one() {
    let e = TtsError::InvalidStyleId { style_id: 12, max_id: 7 };
    assert_eq!(e.message(), "Invalid style ID: 12. Max ID: 7");
    let e = TtsError::InvalidStyleId { style_id: i32::MIN, max_id: 0 };
    assert_eq!(e.message(), "Invalid style ID: -2147483648. Max ID: 0");
    let e = TtsError::InvalidStyleId { style_id: i32::MAX, max_id: 1_000_000 };
    assert_eq!(e.message(), "Invalid style ID: 2147483647. Max ID: 1000000");
    let e = TtsError::InvalidStyleId { style_id: -10, max_id: 109 };
    assert_eq!(e.message(), "Invalid style ID: -10. Max ID: 109");
}

#[test]
fn the_other_failures_in_words() {
    assert_eq!(TtsError::InvalidStyleShape.message(), "Invalid shape for style vectors");
    assert_eq!(TtsError::UnknownMora("ー".to_string()).message(), "Unknown mora: ー");
    assert_eq!(TtsError::UnknownModel("a".to_string()).message(), "Model not found: a");
    assert_eq!(TtsError::Io("disk".to_string()).message(), "disk");
    assert!(!TtsError::Misaligned.message().is_empty());
    assert!(!TtsError::BadContainer.message().is_empty());
}
