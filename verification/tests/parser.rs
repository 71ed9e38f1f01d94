use mrtd::parser::parse;
use mrtd::{Document, Error, Gender};

#[test]
fn parse_passport_with_fillers() {
    let mrz = "P<CANMARTIN<<SARAH<<<<<<<<<<<<<<<<<<<<<<<<<<\
               ZE000509<9CAN8501019F2301147<<<<<<<<<<<<<<08";
    match parse(mrz, true).unwrap() {
        Document::Passport(passport) => {
            assert_eq!(passport.country, "CAN");
            assert_eq!(passport.surnames, vec!["MARTIN"]);
            assert_eq!(passport.given_names, vec!["SARAH"]);
            assert_eq!(passport.passport_number, "ZE000509");
            assert_eq!(passport.nationality, "CAN");
        }
        _ => {}
    }
}

#[test]
fn parse_passport() {
    let mrz = "P<UTOERIKSSON<<ANNA<MARIA<<<<<<<<<<<<<<<<<<<\
               L898902C36UTO7408122F1204159ZE184226B<<<<<10";
    match parse(mrz, true).unwrap() {
        Document::Passport(passport) => {
            assert_eq!(passport.country, "UTO");
            assert_eq!(passport.surnames, vec!["ERIKSSON"]);
            assert_eq!(passport.given_names, vec!["ANNA", "MARIA"]);
            assert_eq!(passport.passport_number, "L898902C3");
            assert_eq!(passport.nationality, "UTO");
            assert_eq!(passport.birth_date.year(), 1974);
            assert_eq!(passport.birth_date.month(), 8);
            assert_eq!(passport.birth_date.day(), 12);
            assert_eq!(passport.gender, Gender::Female);
            assert_eq!(passport.expiry_date.year(), 2012);
            assert_eq!(passport.expiry_date.month(), 4);
            assert_eq!(passport.expiry_date.day(), 15);
        }
        _ => {}
    }
}

#[test]
fn parse_passport_multiple_names() {
    let mrz = "P<UTOERIKSSON<JOHNSON<<ANNA<MARIA<<<<<<<<<<<\
               L898902C36UTO7408122F1204159ZE184226B<<<<<10";
    match parse(mrz, true).unwrap() {
        Document::Passport(passport) => {
            assert_eq!(passport.country, "UTO");
            assert_eq!(passport.surnames, vec!["ERIKSSON", "JOHNSON"]);
            assert_eq!(passport.given_names, vec!["ANNA", "MARIA"]);
            assert_eq!(passport.passport_number, "L898902C3");
            assert_eq!(passport.nationality, "UTO");
            assert_eq!(passport.birth_date.year(), 1974);
            assert_eq!(passport.birth_date.month(), 8);
            assert_eq!(passport.birth_date.day(), 12);
            assert_eq!(passport.gender, Gender::Female);
            assert_eq!(passport.expiry_date.year(), 2012);
            assert_eq!(passport.expiry_date.month(), 4);
            assert_eq!(passport.expiry_date.day(), 15);
        }
        _ => {}
    }
}

#[test]
fn parse_passport_invalid_length() {
    let mrz = "ABC<<";
    let error = parse(mrz, true).unwrap_err();
    assert_eq!(error, Error::InvalidFormat);
}

#[test]
fn parse_passport_invalid_encoding() {
    let mrz = "🕶️";
    let error = parse(mrz, true).unwrap_err();
    assert_eq!(error, Error::InvalidFormat);
}

#[test]
fn parse_passport_invalid_document_type() {
    let mrz = "X<UTOERIKSSON<<ANNA<MARIA<<<<<<<<<<<<<<<<<<<\
               L898902C36UTO7408122F1204159ZE184226B<<<<<10";
    let error = parse(mrz, true).unwrap_err();
    assert_eq!(error, Error::InvalidDocumentType);
}

#[test]
fn parse_passport_invalid_birth_date() {
    let mrz = "P<UTOERIKSSON<<ANNA<MARIA<<<<<<<<<<<<<<<<<<<\
               L898902C36UTO7A08122F1204159ZE184226B<<<<<10";
    let error = parse(mrz, true).unwrap_err();
    assert_eq!(error, Error::InvalidBirthDate);
}

#[test]
fn parse_passport_invalid_expiry_date() {
    let mrz = "P<UTOERIKSSON<<ANNA<MARIA<<<<<<<<<<<<<<<<<<<\
               L898902C36UTO7408122F1<0A159ZE184226B<<<<<10";
    let error = parse(mrz, true).unwrap_err();
    assert_eq!(error, Error::InvalidExpiryDate);
}

#[test]
fn parse_passport_invalid_check_digit() {
    let mrz = "P<UTOERIKSSON<<ANNA<MARIA<<<<<<<<<<<<<<<<<<<\
               L898902C36UTO7408122F1204159ZE184226B<<<<<11";
    parse(mrz, false).unwrap();
    let error = parse(mrz, true).unwrap_err();
    assert_eq!(error, Error::BadCheckDigit);
}

#[test]
fn parse_from_str() {
    let valid_mrz = "P<UTOERIKSSON<<ANNA<MARIA<<<<<<<<<<<<<<<<<<<\
               L898902C36UTO7408122F1204159ZE184226B<<<<<10";
    valid_mrz.parse::<Document>().unwrap();
    let invalid_mrz = "<";
    invalid_mrz.parse::<Document>().unwrap_err();
}

#[test]
fn parse_identity_card() {
    let mrz = "C<ITACA00000AA4<<<<<<<<<<<<<<<\
    6412308F2212304ITA<<<<<<<<<<<0\
    ROSSI<<BIANCA<<<<<<<<<<<<<<<<<";

    match parse(mrz, true).unwrap() {
        Document::IdentityCard(identity_card) => {
            assert_eq!(identity_card.country, "ITA");
            assert_eq!(identity_card.surnames, vec!["ROSSI"]);
            assert_eq!(identity_card.given_names, vec!["BIANCA"]);
            assert_eq!(identity_card.document_number, "CA00000AA");
            assert_eq!(identity_card.nationality, "ITA");
            assert_eq!(identity_card.birth_date.year(), 1964);
            assert_eq!(identity_card.birth_date.month(), 12);
            assert_eq!(identity_card.birth_date.day(), 30);
            assert_eq!(identity_card.gender, Gender::Female);
            assert_eq!(identity_card.expiry_date.year(), 2022);
            assert_eq!(identity_card.expiry_date.month(), 12);
            assert_eq!(identity_card.expiry_date.day(), 30);
        }
        _ => {}
    }
}

#[test]
fn parse_identity_card_multiple_names() {
    let mrz = "I<NLDSPECI20212<<<<<<<<<<<<<<<\
    6503101F3108022NLD<<<<<<<<<<<8\
    DE<BRUIJN<<WILLEKE<LISELOTTE<<";

    match parse(mrz, true).unwrap() {
        Document::IdentityCard(identity_card) => {
            assert_eq!(identity_card.country, "NLD");
            assert_eq!(identity_card.surnames, vec!["DE", "BRUIJN"]);
            assert_eq!(identity_card.given_names, vec!["WILLEKE", "LISELOTTE"]);
            assert_eq!(identity_card.document_number, "SPECI2021");
            assert_eq!(identity_card.nationality, "NLD");
            assert_eq!(identity_card.birth_date.year(), 1965);
            assert_eq!(identity_card.birth_date.month(), 3);
            assert_eq!(identity_card.birth_date.day(), 10);
            assert_eq!(identity_card.gender, Gender::Female);
            assert_eq!(identity_card.expiry_date.year(), 2031);
            assert_eq!(identity_card.expiry_date.month(), 8);
            assert_eq!(identity_card.expiry_date.day(), 2);
        }
        _ => {}
    }
}

#[test]
fn parse_identity_card_invalid_length() {
    let mrz = "I<<<";
    let error = parse(mrz, true).unwrap_err();
    assert_eq!(error, Error::InvalidFormat);
}

#[test]
fn parse_identity_card_invalid_encoding() {
    let mrz = "👺";
    let error = parse(mrz, true).unwrap_err();
    assert_eq!(error, Error::InvalidFormat);
}

#[test]
fn parse_identity_card_invalid_document_type() {
    let mrz = "Z<NLDSPECI20212<<<<<<<<<<<<<<<\
    6503101F3108022NLD<<<<<<<<<<<8\
    DE<BRUIJN<<WILLEKE<LISELOTTE<<";

    let error = parse(mrz, true).unwrap_err();
    assert_eq!(error, Error::InvalidDocumentType);
}

#[test]
fn parse_identity_card_invalid_birth_date() {
    let mrz = "I<NLDSPECI20212<<<<<<<<<<<<<<<\
    6K03101F3108022NLD<<<<<<<<<<<8\
    DE<BRUIJN<<WILLEKE<LISELOTTE<<";

    let error = parse(mrz, true).unwrap_err();
    assert_eq!(error, Error::InvalidBirthDate);
}

#[test]
fn parse_identity_card_invalid_expiry_date() {
    let mrz = "I<NLDSPECI20212<<<<<<<<<<<<<<<\
    6503101F31080W2NLD<<<<<<<<<<<8\
    DE<BRUIJN<<WILLEKE<LISELOTTE<<";

    let error = parse(mrz, true).unwrap_err();
    assert_eq!(error, Error::InvalidExpiryDate);
}

#[test]
fn parse_identity_card_invalid_check_digit() {
    let mrz = "I<NLDSPECI20212<<<<<<<<<<<<<<<\
    6503101F3108022NLD<<<<<<<<<<<9\
    DE<BRUIJN<<WILLEKE<LISELOTTE<<";

    let error = parse(mrz, true).unwrap_err();
    assert_eq!(error, Error::BadCheckDigit);
}
