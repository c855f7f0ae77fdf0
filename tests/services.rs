use dnevest::calendar::{Clock, Date, Year};
use dnevest::delivery::{Priority, UncheckedDelivery};
use dnevest::host;
use dnevest::msgs::{execute, query, ExecuteMsg, QueryMsg};
use dnevest::newspaper::{UncheckedNewspaper, WeeklyFrequency};
use dnevest::order::{Frame, OrderRequest, Rgb, UncheckedCover, UncheckedWishCard};
use dnevest::response::Event;
use dnevest::record::{decode_newspaper, encode_newspaper};
use dnevest::services::{
    self, add_final_year, configure_max_cards, define_end_year, new_newspaper,
    newspapers_by_date, place_order, specify_max_cards, Error as ServiceError,
};
use dnevest::signature::Signature;
use dnevest::storage::{MemoryStore, Storage};

fn now() -> Clock {
    Clock { timestamp: 1732880395 }
}

fn sig(s: &str) -> Signature {
    Signature::try_new(s.to_string()).unwrap()
}

fn unchecked(
    s: &str,
    name: &str,
    start_year: Year,
    end_year: Option<Year>,
    days: [bool; 7],
) -> UncheckedNewspaper {
    UncheckedNewspaper {
        signature: sig(s),
        name: name.to_string(),
        start_year,
        end_year,
        weekly_schedule: WeeklyFrequency::new(days),
    }
}

/// A store holding the configured number of card templates, as a fresh host has it.
fn default_store() -> MemoryStore {
    let mut host = MemoryStore::new(now());
    host.persist("max_cards", &serde_json::to_vec(&40).unwrap());
    host
}

/// A store holding three newspapers besides the number of card templates.
fn store_with_newspapers() -> MemoryStore {
    let mut host = default_store();
    let records = vec![
        unchecked("В4667", "Орбита", 1969, Some(1991), [false, false, false, false, false, true, false]),
        unchecked("В1616", "Народен спор", 1944, Some(1989), [true, false, false, true, false, true, false]),
        unchecked("В1612", "Труд", 1946, None, [true; 7]),
    ];
    for r in records {
        let n = r.into_checked(2024).unwrap();
        let bytes = encode_newspaper(&n).unwrap();
        host.persist(n.identificator(), &bytes);
    }
    host
}

fn newspaper() -> UncheckedNewspaper {
    unchecked("В1905", "Поглед", 1966, Some(1996), [true, false, false, false, false, false, false])
}

fn order_request(preference: &str, template_id: u8) -> OrderRequest {
    OrderRequest {
        wish_card: UncheckedWishCard {
            covers: UncheckedCover {
                preference: sig(preference),
                options: [Some(sig("В4667")), None],
            },
            background: Rgb::new(255, 0, 0),
            frame: Frame::White,
            message: "Честит рожден ден!".to_string(),
            font_type: "Times New Roman".to_string(),
            font_size: 12,
            template_id,
        },
        delivery: UncheckedDelivery {
            customer_names: "Тодор Георгиев".to_string(),
            phone_number: "0873528495".to_string(),
            address: "Пловдив, ул.Тракия 12".to_string(),
            priority: Priority::Standard,
        },
    }
}

fn assert_err(r: Result<Vec<host::Event>, ServiceError>, msg: &str) {
    assert!(r.expect_err("expected an error").message().contains(msg))
}

fn error_text(bytes: &[u8]) -> String {
    serde_json::from_slice::<String>(bytes).expect("an error is a JSON string")
}

fn listed(mut v: Vec<(String, String)>) -> Vec<(String, String)> {
    v.sort();
    v
}

fn by_date(host: &MemoryStore, day: u32, month: u32, year: Year) -> Vec<(String, String)> {
    let date = Date::new(day, month, year).unwrap();
    listed(
        newspapers_by_date(host, &date, now())
            .iter()
            .map(|d| (d.signature().to_string(), d.name().to_string()))
            .collect(),
    )
}

#[test]
fn create_newspaper() {
    let mut host = default_store();
    let res = services::create_newspaper(&mut host, newspaper(), now());
    assert_eq!((res.unwrap())[0].id, "dnevest_n_n".to_string());
}

#[test]
fn create() {
    let mut host = MemoryStore::new(now());
    let res = services::create_newspaper(&mut host, newspaper(), now());
    assert_eq!((res.unwrap())[0].id, "dnevest_n_n".to_string());
    assert!(host.retrieve("В1905").is_some());
}

#[test]
fn dublicate_signature() {
    let mut host = MemoryStore::new(now());

    let res = new_newspaper(&mut host, newspaper(), now());
    assert_eq!((res.unwrap())[0].id, "dnevest_n_n".to_string());
    let stored = host.retrieve("В1905");

    let mut other = newspaper();
    other.name = "Друг".to_string();
    let err = new_newspaper(&mut host, other, now());
    assert_err(err, "Cannot create the newspaper because this signature already exists");
    assert_eq!(host.retrieve("В1905"), stored);
}

#[test]
fn newspaper_not_found() {
    let mut host = default_store();
    let res = define_end_year(&mut host, "В1223", 2021, now());
    assert_err(res, "Newspaper not found");
}

#[test]
fn add_max_cards() {
    let mut host = default_store();
    let res = configure_max_cards(&mut host, 30);
    assert_eq!(res.unwrap()[0].id, "dnevest_max_card");
    assert_eq!(host.retrieve("max_cards"), Some(b"30".to_vec()));
}

#[test]
fn create_order() {
    let mut host = store_with_newspapers();
    let res = place_order(&mut host, order_request("В1616", 10), now());
    let events = res.unwrap();
    assert_eq!(events[0].id, "dnevest_n_o");
    assert_eq!(
        events[0].content,
        r#"{"SavedOrder":"1732880395_0873528495"}"#.as_bytes().to_vec()
    );
    assert!(host.retrieve("1732880395_0873528495").is_some());
}

#[test]
fn persist_and_emit_event() {
    let mut host = default_store();
    let n = unchecked("В1612", "Труд", 1946, Some(2024), [true; 7]).into_checked(2024).unwrap();
    let signature = n.identificator();
    let event_id = "dnevest_end_y";
    let record = encode_newspaper(&n);
    let event = services::persist_and_emit_event(
        &mut host,
        signature,
        record.clone(),
        event_id,
        Event::added_end_year(signature),
    )
    .unwrap();

    assert_eq!(event[0].id, event_id.to_string());
    assert_eq!(
        event[0].content,
        Event::added_end_year(signature)
            .serialize()
            .expect("serialization failed")
    );
    assert_eq!(host.retrieve(signature), record);
}

#[test]
fn persist_without_record_fails_untouched() {
    let mut host = default_store();
    let res = services::persist_and_emit_event(&mut host, "В1612", None, "dnevest_n_n", Event::newspaper_created("В1612"));
    assert!(matches!(res, Err(ServiceError::SerializationFault)));
    assert!(host.retrieve("В1612").is_none());
}

#[test]
fn event_json_shape() {
    assert_eq!(
        Event::newspaper_created("В1905").serialize().unwrap(),
        r#"{"NewspaperCreated":"В1905"}"#.as_bytes().to_vec()
    );
    assert_eq!(
        Event::specified_max_cards("max_cards").serialize().unwrap(),
        br#"{"SpecifiedMaxCards":"max_cards"}"#.to_vec()
    );
    assert_eq!(
        Event::saved_order("a\"b").serialize().unwrap(),
        br#"{"SavedOrder":"a\"b"}"#.to_vec()
    );
}

#[test]
fn specify_max_cards_is_idempotent() {
    let mut host = default_store();
    let first = specify_max_cards(&mut host, 12).unwrap();
    assert_eq!(first.len(), 1);
    assert_eq!(first[0].id, "dnevest_max_card");
    assert_eq!(first[0].content, br#"{"SpecifiedMaxCards":"max_cards"}"#.to_vec());
    let after_first = host.retrieve("max_cards");
    let second = specify_max_cards(&mut host, 12).unwrap();
    assert!(second.is_empty());
    assert_eq!(host.retrieve("max_cards"), after_first);
    // the default number needs no write either
    let mut host = default_store();
    assert!(configure_max_cards(&mut host, 40).unwrap().is_empty());
}

#[test]
fn order_with_missing_cover_names_it() {
    let mut host = store_with_newspapers();
    let res = place_order(&mut host, order_request("В2364", 10), now());
    let err = res.unwrap_err();
    assert!(err.message().contains("В2364"));
    assert!(err.message().contains("not found"));
    assert!(host.retrieve("1732880395_0873528495").is_none());

    let res = services::create_order(&mut host, order_request("В2364", 10), now());
    assert!(error_text(&res.unwrap_err()).contains("В2364"));
}

#[test]
fn duplicate_order_is_refused() {
    let mut host = store_with_newspapers();
    assert!(place_order(&mut host, order_request("В1616", 10), now()).is_ok());
    let res = place_order(&mut host, order_request("В1616", 10), now());
    assert_err(res, "Cannot create the order because it already exists");
}

#[test]
fn order_with_template_beyond_max_is_refused() {
    let mut host = store_with_newspapers();
    let res = place_order(&mut host, order_request("В1616", 41), now());
    assert_err(res, "The card number does not exist");
}

#[test]
fn newspapers_by_date_scenario() {
    let host = store_with_newspapers();
    // 05.07.1987 was a sunday
    assert_eq!(by_date(&host, 5, 7, 1987), vec![("В1612".to_string(), "Труд".to_string())]);
    // 14.07.1990 was a saturday
    assert_eq!(
        by_date(&host, 14, 7, 1990),
        vec![
            ("В1612".to_string(), "Труд".to_string()),
            ("В4667".to_string(), "Орбита".to_string()),
        ]
    );
    // 1988-07-16 was a saturday: all three
    assert_eq!(by_date(&host, 16, 7, 1988).len(), 3);
}

#[test]
fn add_final_year_flow() {
    let mut host = store_with_newspapers();
    let res = define_end_year(&mut host, "В1612", 1969, now()).unwrap();
    assert_eq!(res[0].id, "dnevest_end_y");
    assert_eq!(res[0].content, r#"{"AddedEndYear":"В1612"}"#.as_bytes().to_vec());
    let stored = decode_newspaper(&host.retrieve("В1612").unwrap()).unwrap();
    assert_eq!(stored.end_year, Some(1969));
    // the window is closed now
    assert_eq!(by_date(&host, 14, 7, 1990), vec![("В4667".to_string(), "Орбита".to_string())]);
    let res = define_end_year(&mut host, "В1612", 1970, now());
    assert_err(res, "already exists");
    let res = add_final_year(&mut host, &sig("В1223"), 1970, now());
    assert!(error_text(&res.unwrap_err()).contains("Newspaper not found"));
}

#[test]
fn invalid_newspaper() {
    let mut host = default_store();
    let res = services::create_newspaper(&mut host, unchecked("В4667", "Орбита", 2100, None, [true; 7]), now());
    assert!(error_text(&res.unwrap_err()).contains("start_year cannot be in the future"));
    let res = services::create_newspaper(&mut host, unchecked("В4667", "Орбита", 1969, Some(1960), [true; 7]), now());
    assert!(error_text(&res.unwrap_err()).contains("start_year cannot be after end_year"));
    assert!(host.retrieve("В4667").is_none());
}

#[test]
fn execute_and_query_route_messages() {
    let mut host = default_store();
    let res = execute(
        &mut host,
        
        now(),
        ExecuteMsg::CreateNewspaper { input: newspaper() },
    );
    assert_eq!(res.unwrap()[0].id, "dnevest_n_n");
    let res = execute(&mut host, now(), ExecuteMsg::SpecifyMaxCards { max_number: 40 });
    assert!(res.unwrap().is_empty());
    let res = execute(
        &mut host,
        
        now(),
        ExecuteMsg::AddFinalYear { signature: sig("В1905"), final_year: 1996 },
    );
    assert!(error_text(&res.unwrap_err()).contains("already exists"));
    let res = execute(
        &mut host,
        
        now(),
        ExecuteMsg::CreateOrder { order: order_request("В1905", 3) },
    );
    assert!(error_text(&res.unwrap_err()).contains("В4667"));
    let date = Date::new(7, 3, 1966).unwrap();
    let found = query(&host, now(), &QueryMsg::NewspapersByDate { date });
    assert_eq!(found.len(), 1);
    assert_eq!(found[0].signature(), "В1905");
}

#[test]
fn newspaper_record_is_a_json_array() {
    let n = unchecked("В4667", "Орбита", 1969, Some(1991), [false, false, false, false, false, true, false])
        .into_checked(2024)
        .unwrap();
    let bytes = encode_newspaper(&n).unwrap();
    assert_eq!(
        String::from_utf8(bytes.clone()).unwrap(),
        r#"["В4667","Орбита",1969,1991,[false,false,false,false,false,true,false]]"#
    );
    let back = decode_newspaper(&bytes).unwrap();
    assert_eq!(back.signature.as_str(), "В4667");
    assert_eq!(back.name, "Орбита");
    assert_eq!((back.start_year, back.end_year), (1969, Some(1991)));
    assert_eq!(back.weekly_schedule.days(), [false, false, false, false, false, true, false]);
}

#[test]
fn unreadable_records_are_refused_or_skipped() {
    assert!(decode_newspaper(&b"not json".to_vec()).is_none());
    assert!(decode_newspaper(&br#"["B1612","Trud",1946,null,[true,true,true,true,true,true,true]]"#.to_vec()).is_none());
    let mut host = store_with_newspapers();
    host.persist("В5555", &b"garbage".to_vec());
    assert_eq!(
        by_date(&host, 5, 7, 1987),
        vec![("В1612".to_string(), "Труд".to_string())]
    );
    let res = define_end_year(&mut host, "В5555", 2000, now());
    assert!(matches!(res, Err(ServiceError::DeserializationFault)));
    assert_eq!(host.retrieve("В5555"), Some(b"garbage".to_vec()));
}

#[test]
fn closing_a_closed_newspaper_fails() {
    let mut host = store_with_newspapers();
    let before = host.retrieve("В4667");
    let res = define_end_year(&mut host, "В4667", 1995, now());
    assert!(res.unwrap_err().message().contains("already exists"));
    assert_eq!(host.retrieve("В4667"), before);
}

#[test]
fn error_crosses_as_its_json_message() {
    let e = ServiceError::NewspaperNotFound;
    assert_eq!(e.serialize(), br#""Newspaper not found""#.to_vec());
}
