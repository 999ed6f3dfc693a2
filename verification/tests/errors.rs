use star_tec_backend::error::{EngineError, ErrorClass};

#[test]
fn malformed_requests_are_validation_failures() {
    assert_eq!(EngineError::InvalidPayload(String::from("x")).class(), ErrorClass::Validation);
    assert_eq!(EngineError::InvalidDate(String::from("x")).class(), ErrorClass::Validation);
    assert_eq!(EngineError::UnknownKind.class(), ErrorClass::Validation);
    assert_eq!(EngineError::UnknownOwnershipKind.class(), ErrorClass::Validation);
}

#[test]
fn a_missing_row_is_told_apart_from_a_failing_store() {
    assert_eq!(EngineError::NotFound.class(), ErrorClass::NotFound);
    assert_eq!(EngineError::Database(String::from("connection refused")).class(), ErrorClass::Database);
}

#[test]
fn every_failure_has_its_message() {
    assert_eq!(
        EngineError::InvalidPayload(String::from("expected value at line 1 column 1")).message(),
        "ERROR PARSING JSON: expected value at line 1 column 1"
    );
    assert_eq!(EngineError::InvalidDate(String::from("soon")).message(), "ERROR PARSING DATE: soon");
    assert_eq!(EngineError::UnknownKind.message(), "TYPE IS NOT AVAILABLE FOR DELETION");
    assert_eq!(EngineError::UnknownOwnershipKind.message(), "NO type FOUND");
    assert_eq!(EngineError::NotFound.message(), "ID does not exist");
    assert_eq!(
        EngineError::Database(String::from("violates foreign key constraint")).message(),
        "ERROR ADDING TO DATABASE: violates foreign key constraint"
    );
}

#[test]
fn an_empty_detail_leaves_the_prefix() {
    assert_eq!(EngineError::Database(String::new()).message(), "ERROR ADDING TO DATABASE: ");
}
