use offload::errors::Error;
use offload::model::found_person;
use offload::model::Id;
use offload::model::Person;
use offload::product::ProductId;

#[test]
fn valid_id() {
    let id = Id::try_from("an id").unwrap();

    assert_eq!("an id", id.as_ref())
}

#[test]
fn invalid_id() {
    let id = Id::try_from("");

    assert!(id.is_err());
}

#[test]
fn invalid_id_error_kind() {
    let id = Id::try_from("");

    assert_eq!(id.unwrap_err(), Error::NotAnId);
}

#[test]
fn id_from_present_param() {
    let id = Id::from_param(Some("an id")).unwrap();

    assert_eq!("an id", id.as_ref());
}

#[test]
fn id_from_blank_param() {
    assert_eq!(Id::from_param(Some("")).unwrap_err(), Error::NotAnId);
}

#[test]
fn id_from_absent_param() {
    assert_eq!(Id::from_param(None).unwrap_err(), Error::NotAnId);
}

#[test]
fn person_carries_id_and_name() {
    let person = Person::new(Id::try_from("an id").unwrap(), "Some Name".to_string());

    assert_eq!("an id", person.id.as_ref());
    assert_eq!("Some Name", person.name);
}

#[test]
fn person_data_found() {
    let data = found_person(Some("{}".to_string()));

    assert_eq!(data.unwrap(), "{}");
}

#[test]
fn person_data_missing() {
    let data = found_person(None);

    assert_eq!(data.unwrap_err(), Error::PersonNotFound);
}

#[test]
fn valid_product_id() {
    let id = ProductId::try_from("product-1").unwrap();

    assert_eq!("product-1", id.as_ref());
}

#[test]
fn empty_product_id() {
    assert_eq!(ProductId::try_from("").unwrap_err(), Error::NotAnId);
}

#[test]
fn product_id_at_max_len() {
    let text = "a".repeat(32);
    let id = ProductId::try_from(&text).unwrap();

    assert_eq!(text, id.as_ref());
}

#[test]
fn product_id_over_max_len() {
    let text = "a".repeat(33);

    assert_eq!(ProductId::try_from(&text).unwrap_err(), Error::NotAnId);
}

#[test]
fn error_descriptions() {
    assert_eq!(Error::NotAnId.description(), "the given value isn't a valid id");
    assert_eq!(
        Error::PersonNotFound.description(),
        "the requested person doesn't exist"
    );
    assert_eq!(Error::QueueIsFull.description(), "a worker queue is full");
}
