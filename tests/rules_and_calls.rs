use phone_db::action::Action;
use phone_db::api::{ContactDetails, IncomingPhoneCallRequest, Timestamp};
use phone_db::incoming::{incoming_call_response, new_contact_request, next_step, phone_call_request, CallEvent, CallStep};
use phone_db::rules::{first_match, DefaultAddRequest, DefaultList};

fn rule(id: i64, order: i32, regexp: &str, name: &str, action: Action) -> phone_db::rules::Default {
    phone_db::rules::Default {
        id,
        order,
        regexp: regexp.to_string(),
        name: name.to_string(),
        action,
        inserted_at: Timestamp { micros: 0 },
        updated_at: Timestamp { micros: 0 },
    }
}

fn contact(id: i64, phone: &str, name: Option<&str>, action: Action) -> ContactDetails {
    ContactDetails {
        id,
        phone_number: phone.to_string(),
        name: name.map(|n| n.to_string()),
        action,
        inserted_at: Timestamp { micros: 1_000 },
        updated_at: Timestamp { micros: 1_000 },
        comments: None,
        number_calls: Some(0),
    }
}

fn request(phone: &str, destination: &str) -> IncomingPhoneCallRequest {
    IncomingPhoneCallRequest { phone_number: phone.to_string(), destination_number: destination.to_string() }
}

#[test]
fn first_match_picks_lowest_position() {
    assert_eq!(first_match(&vec![false, true, true]), Some(1));
    assert_eq!(first_match(&vec![false, false]), None);
    assert_eq!(first_match(&vec![]), None);
}

#[test]
fn matcher_returns_first_rule_in_order() {
    let rules = DefaultList::new(vec![
        rule(1, 1, "^04", "Mobile", Action::VoiceMail),
        rule(2, 2, "^0", "Local", Action::Allow),
    ]);
    assert_eq!(rules.search_phone_number("0412345678").map(|d| d.name.clone()), Some("Mobile".to_string()));
    assert_eq!(rules.search_phone_number("0312345678").map(|d| d.name.clone()), Some("Local".to_string()));
    assert!(rules.search_phone_number("1234").is_none());
    assert!(DefaultList::new(vec![]).search_phone_number("0412345678").is_none());
}

#[test]
fn matcher_matches_anywhere_in_number() {
    let rules = DefaultList::new(vec![rule(1, 1, "555", "Hotline", Action::VoiceMail)]);
    assert_eq!(rules.search_phone_number("0255512").map(|d| d.id), Some(1));
}

#[test]
fn matcher_skips_rule_that_does_not_compile() {
    let rules = DefaultList::new(vec![rule(1, 1, "(", "Broken", Action::VoiceMail), rule(2, 2, "^04", "Mobile", Action::Allow)]);
    assert_eq!(rules.search_phone_number("0412345678").map(|d| d.id), Some(2));
    assert!(!rules.iter().next().unwrap().test_phone_number("("));
}

#[test]
fn match_flags_per_rule() {
    let rules = DefaultList::new(vec![rule(1, 1, "^03", "A", Action::Allow), rule(2, 2, "78$", "B", Action::Allow)]);
    assert_eq!(rules.match_flags("0412345678"), vec![false, true]);
}

#[test]
fn unseen_number_matching_rule_gets_its_name_and_action() {
    let rules = DefaultList::new(vec![rule(1, 1, "^04", "Mobile", Action::VoiceMail)]);
    let add = new_contact_request("0412345678", &rules);
    assert_eq!(add.phone_number, "0412345678");
    assert_eq!(add.name, Some("Mobile".to_string()));
    assert_eq!(add.action, Action::VoiceMail);
    assert_eq!(add.comments, None);
}

#[test]
fn unseen_number_without_rule_is_allowed_unnamed() {
    let rules = DefaultList::new(vec![rule(1, 1, "^04", "Mobile", Action::VoiceMail)]);
    let add = new_contact_request("0312345678", &rules);
    assert_eq!(add.name, None);
    assert_eq!(add.action, Action::Allow);
}

#[test]
fn steps_for_unseen_number_create_one_contact() {
    let req = request("0412345678", "0399999999");
    assert!(matches!(next_step(&req, CallEvent::Started), CallStep::FetchContact));
    assert!(matches!(next_step(&req, CallEvent::ContactLookedUp(None)), CallStep::FetchDefaults));
    let rules = DefaultList::new(vec![rule(1, 1, "^04", "Mobile", Action::VoiceMail)]);
    match next_step(&req, CallEvent::DefaultsLoaded(rules)) {
        CallStep::CreateContact(add) => {
            assert_eq!(add.name, Some("Mobile".to_string()));
            assert_eq!(add.action, Action::VoiceMail);
        },
        _ => panic!("expected a contact to create"),
    }
    let created = contact(7, "0412345678", Some("Mobile"), Action::VoiceMail);
    match next_step(&req, CallEvent::ContactCreated(created)) {
        CallStep::RecordCall(used, call) => {
            assert_eq!(used.id, 7);
            assert_eq!(call.contact_id, 7);
            assert_eq!(call.action, Action::VoiceMail);
            assert_eq!(call.destination_number, "0399999999");
        },
        _ => panic!("expected a call to record"),
    }
}

#[test]
fn known_number_reuses_contact() {
    let req = request("0412345678", "0399999999");
    let known = contact(3, "0412345678", Some("Carl"), Action::Allow);
    match next_step(&req, CallEvent::ContactLookedUp(Some(known))) {
        CallStep::RecordCall(used, call) => {
            assert_eq!(used.id, 3);
            assert_eq!(used.name, Some("Carl".to_string()));
            assert_eq!(call.contact_id, 3);
            assert_eq!(call.action, Action::Allow);
        },
        _ => panic!("expected a call to record"),
    }
}

#[test]
fn call_row_captures_current_action() {
    let c = contact(9, "0411111111", None, Action::VoiceMail);
    let call = phone_call_request(&c, &request("0411111111", "0388888888"));
    assert_eq!(call.action, Action::VoiceMail);
    assert_eq!(call.phone_number, "0411111111");
    let response = incoming_call_response(&c);
    assert_eq!(response.name, None);
    assert_eq!(response.action, Action::VoiceMail);
}

#[test]
fn default_from_add_request() {
    let d = phone_db::rules::Default::from_add_request(
        DefaultAddRequest { order: 4, regexp: "^1800".to_string(), name: "Free".to_string(), action: Action::Allow },
        12,
        Timestamp { micros: 5 },
    );
    assert_eq!(d.id, 12);
    assert_eq!(d.order, 4);
    assert_eq!(d.inserted_at, Timestamp { micros: 5 });
    assert_eq!(d.updated_at, Timestamp { micros: 5 });
}
