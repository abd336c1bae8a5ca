use phone_db::action::Action;
use phone_db::api::{ContactDetails, ContactKey, PageRequest, PhoneCallDetails, PhoneCallKey, Timestamp, User};
use phone_db::assets::{fallback_check, Manifest};
use phone_db::auth::{check_credentials, Authentication};
use phone_db::contacts::contacts_query;
use phone_db::errors::{Error, Response};
use phone_db::forms::{
    contact_save_request, default_save_request, get_input_classes, regexp_verdict, validate_action, validate_comments,
    validate_name, validate_order, validate_phone_number, validate_regexp, ContactSave, DefaultSave, Operation,
    ValidationError,
};
use phone_db::number::{i64_to_decimal, parse_i32_str, IntErrorKind};
use phone_db::paging::PAGE_LIMIT;
use phone_db::phone_calls::phone_calls_query;
use phone_db::text::{like_contains_pattern, matches_folded, search_hits_text, text_less};

fn contact(id: i64, phone: &str, name: Option<&str>) -> ContactDetails {
    ContactDetails {
        id,
        phone_number: phone.to_string(),
        name: name.map(|n| n.to_string()),
        action: Action::Allow,
        inserted_at: Timestamp { micros: 0 },
        updated_at: Timestamp { micros: 0 },
        comments: None,
        number_calls: Some(0),
    }
}

fn call(id: i64, at: i64, contact_id: i64, destination: &str) -> PhoneCallDetails {
    PhoneCallDetails {
        id,
        action: Action::Allow,
        contact_id,
        contact_name: Some("John Doe".to_string()),
        contact_phone_number: "0412345678".to_string(),
        contact_action: Action::Allow,
        contact_comments: None,
        destination_number: Some(destination.to_string()),
        inserted_at: Timestamp { micros: at },
        updated_at: Timestamp { micros: at },
        number_calls: Some(1),
    }
}

#[test]
fn search_john_finds_only_john_doe() {
    let q = contacts_query(&PageRequest { after_key: None, search: Some("john".to_string()) });
    let table = vec![contact(1, "0400000001", Some("John Doe")), contact(2, "0400000002", Some("Jane"))];
    let hits: Vec<String> = table.iter().filter(|c| q.admits(c)).map(|c| c.name.clone().unwrap()).collect();
    assert_eq!(hits, vec!["John Doe".to_string()]);
    assert_eq!(q.pattern, Some("%john%".to_string()));
    assert_eq!(q.limit, PAGE_LIMIT);
}

#[test]
fn search_hits_number_too() {
    let q = contacts_query(&PageRequest { after_key: None, search: Some("0002".to_string()) });
    assert!(q.admits(&contact(2, "0400000002", None)));
    assert!(!q.admits(&contact(1, "0400000001", None)));
}

#[test]
fn lower_casing_is_applied() {
    assert!(search_hits_text("JOHN", "john doe"));
    assert!(matches_folded("ohn", "john"));
    assert!(!matches_folded("John", "john"));
}

#[test]
fn like_pattern_escapes_wildcards() {
    assert_eq!(like_contains_pattern("50%_off\\"), "%50\\%\\_off\\\\%");
    assert_eq!(like_contains_pattern(""), "%%");
}

#[test]
fn contact_pages_walk_without_gap_or_overlap() {
    let mut table: Vec<ContactDetails> = Vec::new();
    for i in 0..25 {
        table.push(contact(i, &format!("04{:08}", i), None));
    }
    let limit: usize = 10;
    let page = |after: Option<ContactKey>| {
        let q = contacts_query(&PageRequest { after_key: after, search: None });
        let rows: Vec<ContactDetails> = table.iter().filter(|c| q.admits(c)).take(limit).cloned().collect();
        phone_db::contacts::list_to_page(rows, limit as i64)
    };
    let first = page(None);
    assert_eq!(first.items.len(), 10);
    let key = first.next_key.clone().expect("full page has a next key");
    assert_eq!(key.id, 9);
    let second = page(Some(key));
    let ids: Vec<i64> = first.items.iter().chain(second.items.iter()).map(|c| c.id).collect();
    assert_eq!(ids, (0..20).collect::<Vec<i64>>());
    let third = page(second.next_key.clone());
    assert_eq!(third.items.len(), 5);
    assert!(third.next_key.is_none());
}

#[test]
fn contact_cursor_orders_by_number_then_id() {
    let q = contacts_query(&PageRequest {
        after_key: Some(ContactKey { phone_number: "0400".to_string(), id: 5 }),
        search: None,
    });
    assert!(q.admits(&contact(6, "0400", None)));
    assert!(!q.admits(&contact(5, "0400", None)));
    assert!(!q.admits(&contact(9, "03", None)));
    assert!(q.admits(&contact(1, "04001", None)));
    assert!(text_less("0400", "04001"));
    assert!(!text_less("b", "a"));
}

#[test]
fn page_next_key_boundary() {
    let full = phone_db::contacts::list_to_page((0..10).map(|i| contact(i, "04", None)).collect(), 10);
    assert_eq!(full.next_key.map(|k| k.id), Some(9));
    let short = phone_db::contacts::list_to_page((0..3).map(|i| contact(i, "04", None)).collect(), 10);
    assert!(short.next_key.is_none());
    let empty = phone_db::contacts::list_to_page(vec![], 0);
    assert!(empty.next_key.is_none());
    let calls = phone_db::phone_calls::list_to_page(vec![call(4, 100, 1, "03"), call(3, 90, 1, "03")], 2);
    assert_eq!(calls.next_key, Some(PhoneCallKey { inserted_at: Timestamp { micros: 90 }, id: 3 }));
    let calls = phone_db::phone_calls::list_to_page(vec![call(4, 100, 1, "03")], 2);
    assert!(calls.next_key.is_none());
}

#[test]
fn call_query_filters_contact_search_and_cursor() {
    let q = phone_calls_query(
        &PageRequest {
            after_key: Some(PhoneCallKey { inserted_at: Timestamp { micros: 100 }, id: 4 }),
            search: Some("0399".to_string()),
        },
        Some(1),
    );
    assert!(q.admits(&call(3, 100, 1, "0399111")));
    assert!(!q.admits(&call(5, 100, 1, "0399111")));
    assert!(!q.admits(&call(2, 50, 2, "0399111")));
    assert!(!q.admits(&call(2, 50, 1, "0288111")));
    assert!(q.admits(&call(2, 50, 1, "0399111")));
    assert_eq!(q.pattern, Some("%0399%".to_string()));
}

#[test]
fn parse_i32_like_std() {
    assert_eq!(parse_i32_str("42"), Ok(42));
    assert_eq!(parse_i32_str("-7"), Ok(-7));
    assert_eq!(parse_i32_str("+5"), Ok(5));
    assert_eq!(parse_i32_str("2147483647"), Ok(i32::MAX));
    assert_eq!(parse_i32_str("-2147483648"), Ok(i32::MIN));
    assert_eq!(parse_i32_str(""), Err(IntErrorKind::Empty));
    assert_eq!(parse_i32_str("+"), Err(IntErrorKind::InvalidDigit));
    assert_eq!(parse_i32_str("12a"), Err(IntErrorKind::InvalidDigit));
    assert_eq!(parse_i32_str("2147483648"), Err(IntErrorKind::PosOverflow));
    assert_eq!(parse_i32_str("-2147483649"), Err(IntErrorKind::NegOverflow));
    assert_eq!(parse_i32_str("99999999999x"), Err(IntErrorKind::PosOverflow));
    for s in ["0", "-0", "17", "x", "1 ", "-", "300000000000"] {
        assert_eq!(parse_i32_str(s).ok(), s.parse::<i32>().ok(), "{}", s);
    }
}

#[test]
fn validation_messages() {
    assert_eq!(validate_order(""), Err(ValidationError("Order cannot be empty".to_string())));
    assert_eq!(validate_order("12"), Ok(12));
    assert_eq!(validate_order("x"), Err(ValidationError("Invalid integer: invalid digit found in string".to_string())));
    assert_eq!(
        validate_order("3000000000"),
        Err(ValidationError("Invalid integer: number too large to fit in target type".to_string()))
    );
    assert_eq!(validate_regexp(""), Err(ValidationError("Regexp cannot be empty".to_string())));
    assert_eq!(validate_regexp("^04"), Ok("^04".to_string()));
    let bad = validate_regexp("(").unwrap_err();
    assert!(bad.0.starts_with("Invalid regexp: "));
    assert!(bad.0.len() > "Invalid regexp: ".len());
    assert_eq!(regexp_verdict("a", Err("oops".to_string())), Err(ValidationError("Invalid regexp: oops".to_string())));
    assert_eq!(regexp_verdict("a", Ok(())), Ok("a".to_string()));
    assert_eq!(validate_name(""), Err(ValidationError("Name cannot be empty".to_string())));
    assert_eq!(validate_name("Carl"), Ok("Carl".to_string()));
    assert_eq!(validate_phone_number(""), Err(ValidationError("Phone number cannot be empty".to_string())));
    assert_eq!(validate_phone_number("04"), Ok("04".to_string()));
    assert_eq!(validate_action("voicemail"), Ok(Action::VoiceMail));
    assert_eq!(validate_action("bogus"), Err(ValidationError("Invalid action: Invalid action: bogus".to_string())));
    assert_eq!(validate_comments(""), Ok(None));
    assert_eq!(validate_comments("hi"), Ok(Some("hi".to_string())));
}

#[test]
fn actions_by_name() {
    assert_eq!(Action::Allow.as_str(), "allow");
    assert_eq!(Action::VoiceMail.as_str(), "voicemail");
    assert_eq!(Action::VoiceMail.to_string(), "Voice mail");
    assert_eq!(Action::get_all_options_as_str(), vec![("Allow", "allow"), ("Voice mail", "voicemail")]);
    assert_eq!(Action::try_from_str("allow").unwrap(), Action::Allow);
    let err = Action::try_from_str("Allow").unwrap_err();
    assert_eq!(err.message(), "Invalid action: Allow");
    assert_eq!(Action::from_db("voicemail"), Action::VoiceMail);
    assert_eq!(Action::from_db("other"), Action::Allow);
    assert_eq!(Action::from("voicemail".to_string()), Action::VoiceMail);
    assert_eq!(Action::default(), Action::Allow);
}

#[test]
fn error_answers() {
    assert_eq!(Error::ObjectNotFound("Contact".to_string(), 42).public_message(), "Contact with id 42 not found");
    assert_eq!(Error::ObjectNotFound("Contact".to_string(), 42).status_code(), 404);
    assert_eq!(Error::ObjectNotFound("Contact".to_string(), 42).log_message(), None);
    assert_eq!(Error::Sqlx("boom".to_string()).public_message(), "internal error");
    assert_eq!(Error::Sqlx("boom".to_string()).status_code(), 500);
    assert_eq!(Error::Sqlx("boom".to_string()).log_message(), Some("database error: boom".to_string()));
    assert_eq!(Error::NotAuthorized.status_code(), 401);
    assert_eq!(Error::MethodNotAllowed.status_code(), 405);
    assert_eq!(Error::NotFound.public_message(), "Not found");
    assert_eq!(
        Error::AssetLoad("index.html".to_string(), "missing".to_string()).log_message(),
        Some("Asset load error index.html: missing".to_string())
    );
    assert!(Error::check_rows_affected(1, "Contact", 3).is_ok());
    assert!(matches!(Error::check_rows_affected(0, "Contact", 3), Err(Error::ObjectNotFound(c, 3)) if c == "Contact"));
    assert_eq!(Response::new(5).into_data(), 5);
    let v = Error::from_validation(ValidationError("Name cannot be empty".to_string()));
    assert_eq!(v.status_code(), 400);
    assert_eq!(v.public_message(), "Name cannot be empty");
    assert_eq!(v.log_message(), None);
}

#[test]
fn decimal_text() {
    assert_eq!(i64_to_decimal(0), "0");
    assert_eq!(i64_to_decimal(-5), "-5");
    assert_eq!(i64_to_decimal(1234567890), "1234567890");
    assert_eq!(i64_to_decimal(i64::MIN), i64::MIN.to_string());
    assert_eq!(i64_to_decimal(i64::MAX), i64::MAX.to_string());
}

#[test]
fn credentials_must_both_match() {
    let auth = Authentication { username: "test".to_string(), password: "SECRET-REDACTED".to_string() };
    assert!(check_credentials(&auth, "test", "SECRET-REDACTED").is_ok());
    assert!(matches!(check_credentials(&auth, "test", "nope"), Err(Error::NotAuthorized)));
    assert!(matches!(check_credentials(&auth, "other", "SECRET-REDACTED"), Err(Error::NotAuthorized)));
}

#[test]
fn admin_group_makes_admin() {
    let u = User::new("s".to_string(), "n".to_string(), "e".to_string(), vec!["staff".to_string(), "admin".to_string()]);
    assert!(u.is_admin);
    let u = User::new("s".to_string(), "n".to_string(), "e".to_string(), vec![]);
    assert!(!u.is_admin);
}

#[test]
fn manifest_paths_and_urls() {
    let m = Manifest::new(vec![("backend.js".to_string(), "backend-abc.js".to_string())], "/srv/static".to_string());
    assert_eq!(m.get_url("backend.js"), "/assets/backend-abc.js");
    assert_eq!(m.get_url("other.css"), "/assets/other.css");
    assert_eq!(m.get_path("backend.js"), "/srv/static/backend-abc.js");
    assert_eq!(m.get_internal("backend.js"), "backend-abc.js");
    assert!(m.lookup("index.html").is_none());
    let m2 = Manifest::new(vec![], "/srv/".to_string());
    assert_eq!(m2.get_path("index.html"), "/srv/index.html");
    assert_eq!(m2.get_path("/etc/x"), "/etc/x");
}

#[test]
fn fallback_rules() {
    assert!(matches!(fallback_check(false, true), Err(Error::MethodNotAllowed)));
    assert!(matches!(fallback_check(true, false), Err(Error::NotFound)));
    assert!(fallback_check(true, true).is_ok());
}

#[test]
fn dialogs_save_first_error_or_request() {
    let r = contact_save_request(
        Operation::Edit(3),
        Ok("04".to_string()),
        Err(ValidationError("Name cannot be empty".to_string())),
        Err(ValidationError("x".to_string())),
        Ok(None),
    );
    assert!(matches!(r, Err(ValidationError(m)) if m == "Name cannot be empty"));
    let r = contact_save_request(Operation::Add, Ok("04".to_string()), Ok("Carl".to_string()), Ok(Action::Allow), Ok(None));
    match r {
        Ok(ContactSave::Add(a)) => {
            assert_eq!(a.phone_number, "04");
            assert_eq!(a.name, Some("Carl".to_string()));
        },
        _ => panic!("expected an add"),
    }
    let r = default_save_request(Operation::Edit(8), Ok(1), Ok("^04".to_string()), Ok("Mobile".to_string()), Ok(Action::VoiceMail));
    match r {
        Ok(DefaultSave::Update(u)) => {
            assert_eq!(u.id, 8);
            assert_eq!(u.regexp, "^04");
        },
        _ => panic!("expected an update"),
    }
    assert_eq!(get_input_classes(true, false), "form-control is-valid");
    assert_eq!(get_input_classes(false, false), "form-control");
    assert_eq!(get_input_classes(false, true), "form-control is-invalid");
}

#[test]
fn contact_update_request_keeps_identity() {
    let c = contact(4, "0412", Some("Old"));
    let u = c.clone().get_update_request(Some("New".to_string()), Action::VoiceMail, None);
    assert_eq!(u.id, 4);
    assert_eq!(u.phone_number, "0412");
    assert_eq!(u.name, Some("New".to_string()));
    assert_eq!(c.get_key().phone_number, "0412");
}
