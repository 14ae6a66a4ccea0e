use coffee_review::catalog::coffee_catalog;
use coffee_review::form::{FormEvent, FormState, SubmitError};
use coffee_review::input::parse_number_input;
use coffee_review::submission::{
    begin_submission, finish_submission, FailureReason, RequestStatus, ResponseEvent,
};

fn same_fields(a: &FormState, b: &FormState) -> bool {
    a.brew_method == b.brew_method
        && a.coffee == b.coffee
        && a.weight == b.weight
        && a.water == b.water
        && a.grind_size == b.grind_size
        && a.temperature == b.temperature
        && a.rating == b.rating
        && a.funkiness == b.funkiness
        && a.acidity_bitterness == b.acidity_bitterness
        && a.strength == b.strength
        && a.notes == b.notes
}

#[test]
fn numeric_fields_start_at_their_defaults() {
    let f = FormState::new();
    assert_eq!(f.weight, 30);
    assert_eq!(f.water, 500);
    assert_eq!(f.grind_size, 12);
    assert_eq!(f.temperature, 95);
    assert_eq!(f.rating, 8);
    assert_eq!(f.funkiness, 8);
    assert_eq!(f.acidity_bitterness, 5);
    assert_eq!(f.strength, 5);
    assert_eq!(f.brew_method, "pour-over");
    assert_eq!(f.coffee, "ocean_grind");
    assert_eq!(f.notes, "");
}

#[test]
fn an_edit_changes_only_its_field() {
    let mut f = FormState::new();
    f.update(FormEvent::Weight(18));
    let mut expected = FormState::new();
    expected.weight = 18;
    assert!(same_fields(&f, &expected));

    f.update(FormEvent::Notes("fruity".to_string()));
    expected.notes = "fruity".to_string();
    assert!(same_fields(&f, &expected));

    f.update(FormEvent::Strength(9));
    expected.strength = 9;
    assert!(same_fields(&f, &expected));
    assert_eq!(f.water, 500);
}

#[test]
fn every_offered_coffee_resolves_to_its_entry() {
    let catalog = coffee_catalog();
    assert_eq!(catalog.len(), 3);
    for i in 0..catalog.len() {
        let key = catalog.key_at(i);
        let mut f = FormState::new();
        f.update(FormEvent::Coffee(key.clone()));
        let expected = catalog.get(&key).unwrap();
        let payload = match f.submit(&catalog) {
            Ok(d) => d,
            Err(_) => panic!("offered coffee was not found"),
        };
        assert_eq!(payload.coffee.nickname, expected.nickname);
        assert_eq!(payload.coffee.roastery, expected.roastery);
        assert_eq!(payload.coffee.altitude, expected.altitude);
        assert_eq!(payload.coffee.farm, expected.farm);
    }
}

#[test]
fn catalog_holds_the_documented_coffees() {
    let catalog = coffee_catalog();
    let seven = catalog.get(&"Seven Seeds".to_string()).unwrap();
    assert_eq!(seven.name, "Habtamu Fekadu");
    assert_eq!(seven.altitude, 21865);
    let ingle = catalog.get(&"Inglewood".to_string()).unwrap();
    assert_eq!(ingle.roastery, "Inglewood Coffee Roasters");
    assert_eq!(ingle.farm, "");
    assert_eq!(ingle.altitude, 17250);
    let ocean = catalog.get(&"Ocean Grind".to_string()).unwrap();
    assert_eq!(ocean.origin, "Guatemala");
    assert_eq!(ocean.altitude, 0);
    assert!(catalog.get(&"ocean_grind".to_string()).is_none());
}

#[test]
fn unknown_coffee_is_a_reported_error() {
    let catalog = coffee_catalog();
    let mut f = FormState::new();
    f.update(FormEvent::Coffee("Blue Bottle".to_string()));
    match f.submit(&catalog) {
        Err(SubmitError::CoffeeNotFound(k)) => assert_eq!(k, "Blue Bottle"),
        Ok(_) => panic!("unknown coffee produced a payload"),
    }
}

#[test]
fn untouched_form_selects_no_catalog_coffee() {
    let catalog = coffee_catalog();
    let f = FormState::new();
    assert!(matches!(f.submit(&catalog), Err(SubmitError::CoffeeNotFound(_))));
}

#[test]
fn seven_seeds_scenario() {
    let catalog = coffee_catalog();
    let mut f = FormState::new();
    f.update(FormEvent::Weight(18));
    f.update(FormEvent::Water(300));
    f.update(FormEvent::Coffee("Seven Seeds".to_string()));
    let payload = match f.submit(&catalog) {
        Ok(d) => d,
        Err(_) => panic!("Seven Seeds was not found"),
    };
    assert_eq!(payload.coffee.roastery, "Seven Seeds");
    assert_eq!(payload.weight, 18);
    assert_eq!(payload.water, 300);
    assert_eq!(payload.grind_size, 12);
    assert_eq!(payload.brew_method, "pour-over");
}

#[test]
fn number_input_text_is_read_as_i32() {
    assert_eq!(parse_number_input("42"), 42);
    assert_eq!(parse_number_input("-7"), -7);
    assert_eq!(parse_number_input("+15"), 15);
    assert_eq!(parse_number_input("007"), 7);
    assert_eq!(parse_number_input("2147483647"), 2147483647);
    assert_eq!(parse_number_input("-2147483648"), -2147483648);
}

#[test]
fn number_input_falls_back_to_zero() {
    assert_eq!(parse_number_input(""), 0);
    assert_eq!(parse_number_input("-"), 0);
    assert_eq!(parse_number_input("+"), 0);
    assert_eq!(parse_number_input("12a"), 0);
    assert_eq!(parse_number_input(" 5"), 0);
    assert_eq!(parse_number_input("2147483648"), 0);
    assert_eq!(parse_number_input("-2147483649"), 0);
    assert_eq!(parse_number_input("99999999999999999999"), 0);
    assert_eq!(parse_number_input("1.5"), 0);
}

#[test]
fn submission_starts_pending_or_failed() {
    let catalog = coffee_catalog();
    let mut f = FormState::new();
    f.update(FormEvent::Coffee("Inglewood".to_string()));
    let (status, payload) = begin_submission(f.submit(&catalog));
    assert!(matches!(status, RequestStatus::Pending));
    assert_eq!(payload.unwrap().coffee.name, "Hambela");

    let (status, payload) = begin_submission(FormState::new().submit(&catalog));
    assert!(payload.is_none());
    match status {
        RequestStatus::Failed(FailureReason::UnknownCoffee(k)) => assert_eq!(k, "ocean_grind"),
        _ => panic!("expected an unknown-coffee failure"),
    }
}

#[test]
fn response_decides_the_final_status() {
    assert!(finish_submission(ResponseEvent::Answered(200)).shows_success());
    assert!(finish_submission(ResponseEvent::Answered(299)).shows_success());
    assert!(!RequestStatus::Pending.shows_success());
    match finish_submission(ResponseEvent::Answered(500)) {
        RequestStatus::Failed(FailureReason::Rejected(c)) => assert_eq!(c, 500),
        _ => panic!("expected a rejection"),
    }
    match finish_submission(ResponseEvent::Answered(300)) {
        RequestStatus::Failed(FailureReason::Rejected(c)) => assert_eq!(c, 300),
        _ => panic!("expected a rejection"),
    }
    assert!(matches!(
        finish_submission(ResponseEvent::NetworkFailure),
        RequestStatus::Failed(FailureReason::Network)
    ));
}
