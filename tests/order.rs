use dnevest::calendar::Clock;
use dnevest::delivery::{Priority, UncheckedDelivery};
use dnevest::order::{
    Frame, MaxCards, Order, OrderError, OrderRequest, Rgb, UncheckedCover, UncheckedWishCard,
};
use dnevest::signature::Signature;
use dnevest::storage::{MemoryStore, Storage};

fn sig(s: &str) -> Signature {
    Signature::try_new(s.to_string()).unwrap()
}

fn store() -> MemoryStore {
    let mut host = MemoryStore::new(Clock { timestamp: 1732880395 });
    host.persist("max_cards", &b"40".to_vec());
    for key in ["В4667", "В1616", "В1612"] {
        host.persist(key, &b"{}".to_vec());
    }
    host
}

fn cover(preference: &str, options: [Option<&str>; 2]) -> UncheckedCover {
    UncheckedCover {
        preference: sig(preference),
        options: [options[0].map(sig), options[1].map(sig)],
    }
}

fn wish_card(template_id: u8) -> UncheckedWishCard {
    UncheckedWishCard {
        covers: cover("В1616", [Some("В4667"), None]),
        background: Rgb::new(255, 0, 0),
        frame: Frame::White,
        message: "Честит рожден ден!".to_string(),
        font_type: "Times New Roman".to_string(),
        font_size: 12,
        template_id,
    }
}

fn delivery(phone: &str) -> UncheckedDelivery {
    UncheckedDelivery {
        customer_names: "Тодор Георгиев".to_string(),
        phone_number: phone.to_string(),
        address: "Пловдив, ул.Тракия 12".to_string(),
        priority: Priority::Standard,
    }
}

fn assert_err<T: std::fmt::Debug>(r: Result<T, OrderError>, msg: &str) {
    assert!(r.expect_err("expected an error").message().contains(msg))
}

#[test]
fn cover_checked_deserialization() {
    let host = store();
    let unchecked = cover("В1616", [Some("В4667"), None]);
    assert!(unchecked.into_checked(&host).is_ok());
}

#[test]
fn checked_deserialization_failed() {
    let host = store();
    assert_err(cover("В2364", [None, None]).into_checked(&host), "The signature");
    assert_err(cover("В4667", [None, Some("В2364")]).into_checked(&host), "The signature");
}

#[test]
fn cover_names_the_first_missing_signature() {
    let host = store();
    let err = cover("В1616", [Some("В2364"), Some("В9999")]).into_checked(&host).unwrap_err();
    assert!(matches!(&err, OrderError::SignatureNotFound(s) if s == "В2364"));
    assert_eq!(err.message(), "[order] The signature В2364 is not found.");
    let err = cover("В1616", [None, Some("В9999")]).into_checked(&host).unwrap_err();
    assert!(err.message().contains("В9999"));
}

#[test]
fn wish_card_checked_deserialization() {
    let host = store();
    let res = wish_card(41).into_checked(&host);
    assert_err(res, "The card number does not exist");
    assert!(wish_card(40).into_checked(&host).is_ok());
}

#[test]
fn wish_card_needs_configured_max_cards() {
    let mut host = MemoryStore::new(Clock { timestamp: 0 });
    for key in ["В4667", "В1616"] {
        host.persist(key, &b"{}".to_vec());
    }
    assert!(matches!(
        wish_card(1).into_checked(&host),
        Err(OrderError::MaxCardsNotFound)
    ));
    host.persist("max_cards", &b"forty".to_vec());
    assert!(matches!(
        wish_card(1).into_checked(&host),
        Err(OrderError::DeserializationFault)
    ));
    host.persist("max_cards", &b"0".to_vec());
    assert!(matches!(wish_card(1).into_checked(&host), Err(OrderError::InvalidCard)));
    assert!(wish_card(0).into_checked(&host).is_ok());
}

#[test]
fn max_cards_and_rgb_values() {
    assert_eq!(MaxCards::new(30).number(), 30);
    assert_eq!(Rgb::new(123, 23, 255).channels(), [123, 23, 255]);
}

#[test]
fn order_identifier_is_time_and_phone() {
    let host = store();
    let request = OrderRequest { wish_card: wish_card(10), delivery: delivery("0873528495") };
    let order = Order::construct_checked(request, &host, Clock { timestamp: 1732880395 }).unwrap();
    assert_eq!(order.identifier(), "1732880395_0873528495");
    assert_eq!(order.created_on_ms(), 1732880395);
}

#[test]
fn order_checks_card_before_delivery() {
    let host = store();
    let request = OrderRequest { wish_card: wish_card(50), delivery: delivery("123") };
    assert!(matches!(
        Order::construct_checked(request, &host, Clock { timestamp: 5 }),
        Err(OrderError::InvalidCard)
    ));
    let request = OrderRequest { wish_card: wish_card(5), delivery: delivery("123") };
    assert_err(
        Order::construct_checked(request, &host, Clock { timestamp: 5 }),
        "Phone number must start with 0 or +359",
    );
}

#[test]
fn store_range_scan_keeps_to_its_keys() {
    let mut host = store();
    host.persist("В1612", &b"new".to_vec());
    let mut found = host.retrieve_range("В", "Г");
    found.sort();
    assert_eq!(found, vec![b"new".to_vec(), b"{}".to_vec(), b"{}".to_vec()]);
    assert_eq!(host.retrieve_range("m", "n"), vec![b"40".to_vec()]);
    assert!(host.retrieve_range("a", "b").is_empty());
    assert!(dnevest::storage::is_key_less("В1612", "Г"));
    assert!(dnevest::storage::is_key_less("max_cards", "В"));
    assert!(!dnevest::storage::is_key_less("Г", "В1612"));
    assert!(dnevest::storage::is_key_less("В", "В1"));
    assert!(!dnevest::storage::is_key_less("В1", "В1"));
}
