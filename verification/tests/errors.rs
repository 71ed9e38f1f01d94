use mrtd::Error;

#[test]
fn message_of_each_error() {
    assert_eq!(Error::InvalidDocumentType.to_string(), "invalid document type");
    assert_eq!(Error::InvalidFormat.to_string(), "invalid MRZ format");
    assert_eq!(Error::InvalidBirthDate.to_string(), "invalid date of birth");
    assert_eq!(Error::InvalidExpiryDate.to_string(), "invalid date of expiry");
    assert_eq!(
        Error::BadCheckDigit.to_string(),
        "provided MRZ failed check digit verification"
    );
    assert_eq!(
        Error::ExpectedDigit.to_string(),
        "expected digit at location but found something else"
    );
    assert_eq!(Error::InvalidChar.to_string(), "encountered a invalid character");
}

#[test]
fn errors_compare_by_variant() {
    assert_eq!(Error::InvalidFormat, Error::InvalidFormat);
    assert_ne!(Error::InvalidFormat, Error::InvalidChar);
    assert_ne!(Error::InvalidBirthDate, Error::InvalidExpiryDate);
    assert_eq!(format!("{:?}", Error::BadCheckDigit), "BadCheckDigit");
}
