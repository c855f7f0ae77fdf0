use dnevest::delivery::{check_names, check_phone, Delivery, Priority, UncheckedDelivery};
use dnevest::order::{DeliveryRule, OrderError};

fn assert_err(r: Result<(), OrderError>, msg: &str) {
    assert!(r.expect_err("expected an error").message().contains(msg))
}

fn unchecked(names: &str, phone: &str) -> UncheckedDelivery {
    UncheckedDelivery {
        customer_names: names.to_string(),
        phone_number: phone.to_string(),
        address: "Пловдив, ул.Тракия 12".to_string(),
        priority: Priority::Standard,
    }
}

#[test]
fn delivery_valid_names() {
    assert!(check_names("Иван Костадинов").is_ok());
    assert!(check_names("Анна-Мария Йорданова").is_ok());
    assert!(check_names("Стоян Руменов Тодоров").is_ok());
    assert!(check_names("Христина Асенова-Петрова").is_ok());

    assert!(check_names("Hristo Petkov").is_ok());
    assert!(check_names("Svilena Manolova-Donkova").is_ok());
}

#[test]
fn delivery_invalid_names() {
    let msg = "The customer has to supply at least two names.";
    assert_err(check_names("Генади"), msg);
    assert_err(check_names("Galka"), msg);
}

#[test]
fn delivery_valid_phone() {
    assert!(check_phone("0893471823").is_ok());
    assert!(check_phone("+359461839203").is_ok());
}

#[test]
fn delivery_invalid_phone() {
    assert_err(
        check_phone("9838774692"),
        "Phone number must start with 0 or +359",
    );

    let msg = "Wrong number of digits";
    assert_err(check_phone("038776492"), msg);
    assert_err(check_phone("+35938776492"), msg);
    assert_err(check_phone("+359 238776492"), msg);
}

#[test]
fn waybill_valid_names() {
    assert!(check_names("Иван Костадинов").is_ok());
    assert!(check_names("Анна-Мария Йорданова").is_ok());
    assert!(check_names("Стоян Руменов Тодоров").is_ok());
    assert!(check_names("Христина Асенова-Петрова").is_ok());

    assert!(check_names("Hristo Petkov").is_ok());
    assert!(check_names("Svilena Manolova-Donkova").is_ok());
}

#[test]
fn waybill_invalid_names() {
    let msg = "The customer has to supply at least two names.";
    assert_err(check_names("Генади"), msg);
    assert_err(check_names("Galka"), msg);
}

#[test]
fn waybill_valid_phone() {
    assert!(check_phone("0893471823").is_ok());
    assert!(check_phone("+359461839203").is_ok());
}

#[test]
fn waybill_invalid_phone() {
    assert_err(
        check_phone("9838774692"),
        "Phone number must start with 0 or +359",
    );

    let msg = "Wrong number of digits";
    assert_err(check_phone("038776492"), msg);
    assert_err(check_phone("+35938776492"), msg);
    assert_err(check_phone("+359 238776492"), msg);
}

#[test]
fn names_with_unusual_spacing() {
    assert!(check_names("  Иван   Костадинов  ").is_ok());
    assert!(check_names("Иван\tКостадинов").is_ok());
    assert!(check_names("Иван\u{3000}Костадинов").is_ok());
    assert!(check_names("   Генади   ").is_err());
    assert!(check_names("").is_err());
    assert!(check_names("     ").is_err());
}

#[test]
fn phone_edge_cases() {
    assert!(check_phone("+359000000000").is_ok());
    assert!(check_phone("0000000000").is_ok());
    assert!(matches!(
        check_phone(""),
        Err(OrderError::InvalidDelivery(DeliveryRule::PhonePrefix))
    ));
    assert!(matches!(
        check_phone("+358873528495"),
        Err(OrderError::InvalidDelivery(DeliveryRule::PhonePrefix))
    ));
    assert!(matches!(
        check_phone("08735284a5"),
        Err(OrderError::InvalidDelivery(DeliveryRule::PhoneDigits))
    ));
    assert!(matches!(
        check_phone("08735284955"),
        Err(OrderError::InvalidDelivery(DeliveryRule::PhoneDigits))
    ));
}

#[test]
fn waybill_deserialize() {
    let delivery = unchecked("Тодор Георгиев", "0873528495").into_checked().unwrap();
    assert_eq!(delivery.phone(), "0873528495");
}

#[test]
fn deserialization_err() {
    let res = unchecked("Тодор Георгиев", "+358873528495").into_checked();
    assert!(res
        .expect_err("expected an error")
        .message()
        .contains("Phone number must start with 0 or +359"));
}

#[test]
fn delivery_checks_names_before_phone() {
    let d = Delivery::new_unchecked(
        "Тодор".to_string(),
        "123".to_string(),
        "Пловдив".to_string(),
        Priority::Express,
    );
    assert!(matches!(
        d.check(),
        Err(OrderError::InvalidDelivery(DeliveryRule::TooFewNames))
    ));
}
