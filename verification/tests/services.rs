use exetel_api::customer::date::Date;
use exetel_api::customer::service::Service;
use exetel_api::customer::services::{
    BroadbandService, Data, GetServices, MobileService, ServiceKind, Services,
};
use exetel_api::customer::{Percentage, Price};
use exetel_api::client::Query;
use exetel_api::json::Json;
use exetel_api::ApiError;

const RECORD: &str = r#"{
    "id": 123,
    "description": "NBN 50",
    "monthlyCharge": "$59.99",
    "contractStartDate": "5 Jan 2024",
    "contractEndDate": "4 Jan 2025",
    "currentContract": 456,
    "billingCycleProgressPercentage": 42,
    "inContract": true,
    "paymentVia": "Credit Card",
    "paymentExpiry": "01/27",
    "planChange": false,
    "serviceNumber": "0412345678",
    "serviceType": "broadband",
    "nextBillingCycleStart": "5 Feb 24",
    "speedTier": {"down": 50, "up": 20, "ratio": 2.5, "tags": ["a", null]},
    "another": "x"
}"#;

fn date(year: u16, month: u8, day: u8) -> Date {
    Date::from_ymd(year, month, day).expect("a day of the calendar")
}

fn record() -> Service {
    Service {
        id: 123,
        description: "NBN 50".to_string(),
        monthly_charge: Price(5999),
        contract_start_date: date(2024, 1, 5),
        contract_end_date: date(2025, 1, 4),
        current_contract: 456,
        billing_cycle_progress_percentage: Percentage(42),
        in_contract: true,
        payment_via: "Credit Card".to_string(),
        payment_expiry: Some("01/27".to_string()),
        plan_change: false,
        service_number: "0412345678".to_string(),
        service_type: "broadband".to_string(),
        next_billing_cycle_start: date(2024, 2, 5),
        rest: vec![
            ("another".to_string(), Json::Text("x".to_string())),
            (
                "speedTier".to_string(),
                Json::Object(vec![
                    ("down".to_string(), Json::from_u64(50)),
                    ("ratio".to_string(), Json::Number(serde_json::Number::from_f64(2.5).unwrap())),
                    (
                        "tags".to_string(),
                        Json::Array(vec![Json::Text("a".to_string()), Json::Null]),
                    ),
                    ("up".to_string(), Json::from_u64(20)),
                ]),
            ),
        ],
    }
}

fn without(name: &str) -> Json {
    match Json::parse(RECORD).unwrap() {
        Json::Object(members) => Json::Object(members.into_iter().filter(|m| m.0 != name).collect()),
        _ => unreachable!(),
    }
}

fn with(name: &str, value: Json) -> Json {
    match Json::parse(RECORD).unwrap() {
        Json::Object(mut members) => {
            members.push((name.to_string(), value));
            Json::Object(members)
        }
        _ => unreachable!(),
    }
}

#[test]
fn service_record_is_read_field_by_field() {
    let service = Service::decode(&Json::parse(RECORD).unwrap()).unwrap();
    assert_eq!(service, record());
    assert_eq!(service.monthly_charge.cents(), 5999);
    assert_eq!(service.next_billing_cycle_start.year(), 2024);
    assert_eq!(service.rest.len(), 2);
}

#[test]
fn service_record_needs_every_member_but_the_expiry() {
    for name in [
        "id",
        "description",
        "monthlyCharge",
        "contractStartDate",
        "contractEndDate",
        "currentContract",
        "billingCycleProgressPercentage",
        "inContract",
        "paymentVia",
        "planChange",
        "serviceNumber",
        "serviceType",
        "nextBillingCycleStart",
    ] {
        assert_eq!(Service::decode(&without(name)), Err(ApiError::Decode), "{}", name);
    }
    let service = Service::decode(&without("paymentExpiry")).unwrap();
    assert_eq!(service.payment_expiry, None);
    let service = Service::decode(&with("paymentExpiry", Json::Null)).unwrap();
    assert_eq!(service.payment_expiry, None);
}

#[test]
fn service_record_needs_every_member_of_its_type() {
    let wrong = [
        ("id", Json::Text("123".to_string())),
        ("id", Json::from_i64(-1)),
        ("description", Json::from_u64(1)),
        ("monthlyCharge", Json::from_u64(5999)),
        ("monthlyCharge", Json::Text("free".to_string())),
        ("contractStartDate", Json::Text("2024-01-05".to_string())),
        ("contractEndDate", Json::Text("5 Jan 25".to_string())),
        ("currentContract", Json::Null),
        ("billingCycleProgressPercentage", Json::Text("42%".to_string())),
        ("inContract", Json::Text("true".to_string())),
        ("paymentVia", Json::Null),
        ("paymentExpiry", Json::from_u64(127)),
        ("planChange", Json::from_u64(0)),
        ("serviceNumber", Json::from_u64(412345678)),
        ("serviceType", Json::Array(vec![])),
        ("nextBillingCycleStart", Json::Text("5 Feb 2024".to_string())),
    ];
    for (name, value) in wrong {
        assert_eq!(Service::decode(&with(name, value)), Err(ApiError::Decode), "{}", name);
    }
    assert_eq!(Service::decode(&Json::Array(vec![])), Err(ApiError::Decode));
    assert_eq!(Service::decode(&Json::Null), Err(ApiError::Decode));
}

#[test]
fn percentage_of_a_record_may_be_any_integer() {
    let service = Service::decode(&with("billingCycleProgressPercentage", Json::from_i64(-250))).unwrap();
    assert_eq!(service.billing_cycle_progress_percentage, Percentage(-250));
    assert_eq!(service.encode().get_i64("billingCycleProgressPercentage"), Some(-250));
}

#[test]
fn service_record_is_written_with_its_known_members_last() {
    let json = record().encode();
    assert_eq!(
        json.to_text().unwrap(),
        concat_all(&[
            r#"{"another":"x","billingCycleProgressPercentage":42,"contractEndDate":"4 Jan 2025","#,
            r#""contractStartDate":"5 Jan 2024","currentContract":456,"description":"NBN 50","#,
            r#""id":123,"inContract":true,"monthlyCharge":"$59.99","nextBillingCycleStart":"5 Feb 24","#,
            r#""paymentExpiry":"01/27","paymentVia":"Credit Card","planChange":false,"#,
            r#""serviceNumber":"0412345678","serviceType":"broadband","#,
            r#""speedTier":{"down":50,"ratio":2.5,"tags":["a",null],"up":20}}"#,
        ])
    );
    let mut bare = record();
    bare.payment_expiry = None;
    assert_eq!(bare.encode().get("paymentExpiry"), Some(&Json::Null));
}

fn concat_all(parts: &[&str]) -> String {
    let mut out = String::new();
    for part in parts {
        out.push_str(part);
    }
    out
}

#[test]
fn unknown_members_survive_reading_and_writing() {
    let wire = Json::parse(RECORD).unwrap();
    let written = Service::decode(&wire).unwrap().encode();
    assert_eq!(written.get("speedTier"), wire.get("speedTier"));
    assert_eq!(written.get("another"), wire.get("another"));
    assert!(written.get("speedTier").is_some());
    assert_eq!(written.get("nothing"), None);
    assert_eq!(Json::parse(&written.to_text().unwrap()), Json::parse(&wire.to_text().unwrap()));
}

#[test]
fn known_members_win_over_the_rest() {
    let mut service = record();
    service.rest.push(("id".to_string(), Json::from_u64(999)));
    service.rest.push(("kept".to_string(), Json::Bool(true)));
    let written = service.encode();
    assert_eq!(written.get_u64("id"), Some(123));
    assert_eq!(written.get_bool("kept"), Some(true));
    let back = Service::decode(&written).unwrap();
    assert_eq!(back.id, 123);
    assert!(back.rest.iter().all(|m| m.0 != "id"));
    assert!(back.rest.iter().any(|m| m.0 == "kept"));
}

#[test]
fn written_record_is_read_back() {
    let service = record();
    assert_eq!(Service::decode(&service.encode()), Ok(record()));
    let text = service.encode().to_text().unwrap();
    assert_eq!(Service::decode(&Json::parse(&text).unwrap()), Ok(record()));
}

#[test]
fn envelope_hands_out_its_content() {
    assert_eq!(Data::new(5u32).unwrap(), 5);
    assert_eq!(Data::new("x".to_string()).unwrap(), "x");
    let json = Json::parse(r#"{"data": [1], "other": 2}"#).unwrap();
    assert_eq!(Data::proxy(&json), Some(&Json::Array(vec![Json::from_u64(1)])));
    assert_eq!(Data::proxy(&Json::parse(r#"{"other": 2}"#).unwrap()), None);
    assert_eq!(Data::proxy(&Json::Array(vec![])), None);
}

#[test]
fn services_are_read_list_by_list() {
    let text = format!(
        r#"{{"broadband":{{"data":[{}]}},"mobile":{{"data":[{}, {}]}},"phone":{{"data":[]}},"voip":{{"data":[]}},"more":1}}"#,
        RECORD, RECORD, RECORD
    );
    let services = Services::decode(&Json::parse(&text).unwrap()).unwrap();
    assert_eq!(services.broadband, vec![BroadbandService { service: record() }]);
    assert_eq!(services.mobile, vec![MobileService { service: record() }, MobileService { service: record() }]);
    assert!(services.phone.is_empty());
    assert!(services.voip.is_empty());
    assert_eq!(services.broadband[0].as_service(), &record());
    let shared: &Service = services.mobile[1].as_ref();
    assert_eq!(shared, &record());
    assert!(std::ptr::eq(shared, &services.mobile[1].service));
    let first: &Service = services.broadband[0].as_ref();
    assert!(std::ptr::eq(first, &services.broadband[0].service));
    assert_eq!(BroadbandService::from_service(record()), services.broadband[0]);
}

#[test]
fn services_need_the_four_lists_in_their_envelopes() {
    let bad = [
        r#"{"broadband":{"data":[]},"mobile":{"data":[]},"phone":{"data":[]}}"#,
        r#"{"broadband":[],"mobile":{"data":[]},"phone":{"data":[]},"voip":{"data":[]}}"#,
        r#"{"broadband":{"data":{}},"mobile":{"data":[]},"phone":{"data":[]},"voip":{"data":[]}}"#,
        r#"{"broadband":{"data":[]},"mobile":{"data":[]},"phone":{"data":[]},"voip":{"items":[]}}"#,
        r#"{"broadband":{"data":[]},"mobile":{"data":[]},"phone":{"data":[{"id":1}]},"voip":{"data":[]}}"#,
        r#"{"data":{"broadband":{"data":[]},"mobile":{"data":[]},"phone":{"data":[]},"voip":{"data":[]}}}"#,
        r#"[]"#,
    ];
    for text in bad {
        assert_eq!(Services::decode(&Json::parse(text).unwrap()), Err(ApiError::Decode), "{}", text);
    }
}

#[test]
fn the_query_for_services_is_fetched_from_its_path() {
    assert_eq!(GetServices.path(), "/service");
    assert_eq!(GetServices.body(), None);
    assert_eq!(GetServices.url(), Ok("https://webservices.api.exetel.com.au/v1/service".to_string()));
    let answer = Json::parse(
        r#"{"broadband":{"data":[]},"mobile":{"data":[]},"phone":{"data":[]},"voip":{"data":[]}}"#,
    )
    .unwrap();
    let services = GetServices.decode(&answer).unwrap().unwrap();
    assert_eq!(services, Services { broadband: vec![], mobile: vec![], phone: vec![], voip: vec![] });
    assert!(matches!(GetServices.decode(&Json::Null), Err(ApiError::Decode)));
}
