use dnevest::newspaper::NewspaperError;
use dnevest::signature::{self, Signature};

fn new(sign: &str) -> Result<Signature, NewspaperError> {
    Signature::try_new(sign.to_string())
}

fn assert_err(r: Result<Signature, NewspaperError>, msg: &str) {
    let err = r.expect_err("Expected an error, but got a valid Signature.");
    let error_message = err.message();
    assert!(
        error_message.contains(msg),
        "Expected error message to contain: '{}', but got: '{}'",
        msg,
        error_message
    );
}

#[test]
fn signature_valid_signatures() {
    assert!(new("В1234").is_ok());
    assert!(new("В0001").is_ok());
    assert!(new("В9999").is_ok());
}

#[test]
fn signature_not_maching_pattern() {
    const MSG: &str = "Signature does not match the required pattern";

    assert_err(new("В0000"), MSG);
    assert_err(new("b2974"), MSG);
    assert_err(new("в2974"), MSG);
    assert_err(new("n2974"), MSG);
    assert_err(new("N0970"), MSG);
    assert_err(new("0000"), MSG);
    assert_err(new("В-780"), MSG);
    assert_err(new("В34580"), MSG);
    assert_err(new("В+450"), MSG);
}

#[test]
fn signature_using_latin_letter() {
    const MSG: &str = "Signature does not match the required pattern";
    assert_err(new("B3497"), MSG);
}

#[test]
fn next_letter() {
    assert_eq!(signature::next_letter('В'), 'Г');
    assert_eq!(signature::next_letter('B'), 'C');
    assert_ne!(signature::next_letter('B'), 'Г')
}

#[test]
fn signature_round_trips_its_text() {
    for text in ["В1234", "В0001", "В9999", "В1000"] {
        let sig = new(text).expect("valid signature");
        assert_eq!(sig.as_str(), text);
    }
}

#[test]
fn signature_rejects_wrong_lengths_and_characters() {
    for text in ["", "В", "В123", "В12345", "В12a4", "ВВ123", "Г1234", "В 123", "В١٢٣٤"] {
        assert_eq!(new(text).unwrap_err(), NewspaperError::SignatureMismatch);
    }
}

#[test]
fn signature_error_is_signature_mismatch() {
    assert_eq!(new("В0000").unwrap_err(), NewspaperError::SignatureMismatch);
}
