use git2kit::record::{Field, FieldValue, RecordError};
use git2kit::Origin;

fn text(name: &str, value: &str) -> Field {
    Field { name: name.to_string(), value: FieldValue::Text(value.to_string()) }
}

fn null(name: &str) -> Field {
    Field { name: name.to_string(), value: FieldValue::Null }
}

fn flag(name: &str, value: bool) -> Field {
    Field { name: name.to_string(), value: FieldValue::Flag(value) }
}

#[test]
fn an_origin_survives_the_round_trip_through_its_record() {
    let origin = Origin::new("https://x", Some("t"));
    let record = origin.to_record();
    assert_eq!(record, vec![text("url", "https://x"), text("token", "t")]);
    assert_eq!(Origin::from_record(&record), Ok(origin));
    let bare = Origin::new("https://x", None);
    assert_eq!(bare.to_record(), vec![text("url", "https://x"), null("token")]);
    assert_eq!(Origin::from_record(&bare.to_record()), Ok(bare));
}

#[test]
fn a_record_with_an_extra_field_is_no_origin() {
    let record = vec![text("url", "https://x"), text("token", "t"), text("extra", "1")];
    assert_eq!(Origin::from_record(&record), Err(RecordError::UnknownField("extra".to_string())));
    let record = vec![flag("prune", true), text("url", "https://x")];
    assert_eq!(Origin::from_record(&record), Err(RecordError::UnknownField("prune".to_string())));
    let record = vec![text("URL", "https://x")];
    assert_eq!(Origin::from_record(&record), Err(RecordError::UnknownField("URL".to_string())));
}

#[test]
fn the_url_is_required_and_the_token_is_not() {
    assert_eq!(Origin::from_record(&vec![]), Err(RecordError::MissingField("url".to_string())));
    assert_eq!(Origin::from_record(&vec![text("token", "t")]), Err(RecordError::MissingField("url".to_string())));
    assert_eq!(Origin::from_record(&vec![text("url", "u")]), Ok(Origin::new("u", None)));
    assert_eq!(Origin::from_record(&vec![text("token", "t"), text("url", "u")]), Ok(Origin::new("u", Some("t"))));
    assert_eq!(Origin::from_record(&vec![text("url", "u"), null("token")]), Ok(Origin::new("u", None)));
}

#[test]
fn fields_come_once_and_with_the_right_kind() {
    assert_eq!(
        Origin::from_record(&vec![text("url", "u"), text("url", "v")]),
        Err(RecordError::DuplicateField("url".to_string()))
    );
    assert_eq!(
        Origin::from_record(&vec![text("url", "u"), null("token"), text("token", "t")]),
        Err(RecordError::DuplicateField("token".to_string()))
    );
    assert_eq!(Origin::from_record(&vec![null("url")]), Err(RecordError::WrongKind("url".to_string())));
    assert_eq!(Origin::from_record(&vec![flag("url", true)]), Err(RecordError::WrongKind("url".to_string())));
    assert_eq!(
        Origin::from_record(&vec![text("url", "u"), flag("token", false)]),
        Err(RecordError::WrongKind("token".to_string()))
    );
    // the first fault in the order of the fields is the one reported
    assert_eq!(
        Origin::from_record(&vec![flag("token", false), text("extra", "1")]),
        Err(RecordError::WrongKind("token".to_string()))
    );
}
