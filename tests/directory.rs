use phone_db::action::Action;
use phone_db::api::{ContactDetails, Timestamp};
use phone_db::errors::Error;
use phone_db::ldap::{
    add_entry, delete_plan, dn_for, include_contact_in_ldap, modification, single_result, update_plan, AddLdapContact,
    Dn, LdapContact, LdapPlan, UpdateLdapContact,
};

fn contact(phone: &str, name: Option<&str>, action: Action) -> ContactDetails {
    ContactDetails {
        id: 1,
        phone_number: phone.to_string(),
        name: name.map(|n| n.to_string()),
        action,
        inserted_at: Timestamp { micros: 0 },
        updated_at: Timestamp { micros: 0 },
        comments: None,
        number_calls: None,
    }
}

fn entry(dn: &str, name: &str, phone: &str) -> LdapContact {
    LdapContact::from_attributes(
        dn.to_string(),
        &vec![
            ("cn".to_string(), vec![name.to_string()]),
            ("sn".to_string(), vec![name.to_string()]),
            ("telephoneNumber".to_string(), vec![phone.to_string()]),
        ],
    )
}

#[test]
fn includable_needs_name_number_and_allow() {
    assert!(include_contact_in_ldap(&contact("0400000000", Some("Carl"), Action::Allow)));
    assert!(!include_contact_in_ldap(&contact("0400000000", None, Action::Allow)));
    assert!(!include_contact_in_ldap(&contact("anonymous", Some("Carl"), Action::Allow)));
    assert!(!include_contact_in_ldap(&contact("0400000000", Some("Carl"), Action::VoiceMail)));
}

#[test]
fn new_includable_contact_is_added() {
    let carl = contact("0400000000", Some("Carl"), Action::Allow);
    match update_plan(&carl, Ok(None)) {
        LdapPlan::Add(add) => {
            assert_eq!(add.cn, Some("Carl".to_string()));
            assert_eq!(add.sn, Some("Carl".to_string()));
            assert_eq!(add.telephone_number, "0400000000");
            let addition = add_entry(add, "ou=people,dc=example,dc=org");
            assert_eq!(addition.dn.as_str(), "telephoneNumber=0400000000,ou=people,dc=example,dc=org");
            assert_eq!(
                addition.attributes,
                vec![
                    ("cn".to_string(), vec!["Carl".to_string()]),
                    ("sn".to_string(), vec!["Carl".to_string()]),
                    ("telephoneNumber".to_string(), vec!["0400000000".to_string()]),
                    ("objectClass".to_string(), vec!["person".to_string()]),
                ]
            );
        },
        _ => panic!("expected an add"),
    }
}

#[test]
fn contact_sent_to_voicemail_is_deleted() {
    let carl = contact("0400000000", Some("Carl"), Action::VoiceMail);
    let found = entry("telephoneNumber=0400000000,dc=example,dc=org", "Carl", "0400000000");
    match update_plan(&carl, Ok(Some(found))) {
        LdapPlan::Delete(dn) => assert_eq!(dn.as_str(), "telephoneNumber=0400000000,dc=example,dc=org"),
        _ => panic!("expected a delete"),
    }
}

#[test]
fn found_includable_contact_is_updated_with_same_values() {
    let carl = contact("0400000000", Some("Carl"), Action::Allow);
    let found = entry("telephoneNumber=0400000000,dc=example,dc=org", "Carl", "0400000000");
    match update_plan(&carl, Ok(Some(found))) {
        LdapPlan::Update(u) => {
            assert_eq!(u.dn.as_str(), "telephoneNumber=0400000000,dc=example,dc=org");
            assert_eq!(u.cn, Some("Carl".to_string()));
            assert_eq!(u.sn, Some("Carl".to_string()));
            assert_eq!(u.telephone_number, Some("0400000000".to_string()));
        },
        _ => panic!("expected an update"),
    }
}

#[test]
fn second_reconcile_after_add_is_an_update_to_same_values() {
    let carl = contact("0400000000", Some("Carl"), Action::Allow);
    let add = match update_plan(&carl, Ok(None)) {
        LdapPlan::Add(add) => add_entry(add, "dc=example,dc=org"),
        _ => panic!("expected an add"),
    };
    let created = LdapContact::from_attributes(add.dn.as_str().to_string(), &add.attributes);
    match update_plan(&carl, Ok(Some(created))) {
        LdapPlan::Update(u) => {
            let m = modification(u);
            assert_eq!(m.dn.as_str(), add.dn.as_str());
            assert_eq!(m.replacements[..], add.attributes[..3]);
        },
        _ => panic!("expected an update"),
    }
}

#[test]
fn excluded_unknown_contact_needs_nothing() {
    let anon = contact("anonymous", Some("Who"), Action::Allow);
    assert!(matches!(update_plan(&anon, Ok(None)), LdapPlan::Nothing));
}

#[test]
fn failed_search_changes_nothing() {
    let carl = contact("0400000000", Some("Carl"), Action::Allow);
    assert!(matches!(update_plan(&carl, Err(phone_db::ldap::Error::LdapTooManyResults)), LdapPlan::Nothing));
    assert!(delete_plan(Err(phone_db::ldap::Error::Ldap("down".to_string()))).is_none());
}

#[test]
fn delete_plan_uses_found_entry() {
    let found = entry("telephoneNumber=1,dc=x", "A", "1");
    assert_eq!(delete_plan(Ok(Some(found))).map(|d| d.as_str().to_string()), Some("telephoneNumber=1,dc=x".to_string()));
    assert!(delete_plan(Ok(None)).is_none());
}

#[test]
fn search_results_reduce_to_one_entry() {
    assert!(matches!(single_result(vec![]), Ok(None)));
    let one = single_result(vec![entry("cn=a", "A", "1")]).unwrap().unwrap();
    assert_eq!(one.dn().as_str(), "cn=a");
    let many = single_result(vec![entry("cn=a", "A", "1"), entry("cn=b", "B", "1")]);
    assert!(matches!(many, Err(phone_db::ldap::Error::LdapTooManyResults)));
    assert!(matches!(Error::from_ldap(phone_db::ldap::Error::LdapTooManyResults), Error::LdapTooManyResults));
}

#[test]
fn entry_fields_take_first_value() {
    let c = LdapContact::from_attributes(
        "cn=x".to_string(),
        &vec![("telephoneNumber".to_string(), vec!["1".to_string(), "2".to_string()]), ("cn".to_string(), vec![])],
    );
    assert_eq!(c.dn().as_str(), "cn=x");
}

#[test]
fn modification_replaces_three_attributes() {
    let m = modification(UpdateLdapContact {
        dn: Dn::new("cn=a".to_string()),
        cn: None,
        sn: Some("S".to_string()),
        telephone_number: Some("9".to_string()),
    });
    assert_eq!(
        m.replacements,
        vec![
            ("cn".to_string(), vec![]),
            ("sn".to_string(), vec!["S".to_string()]),
            ("telephoneNumber".to_string(), vec!["9".to_string()]),
        ]
    );
    let add = add_entry(AddLdapContact { cn: None, sn: None, telephone_number: "5".to_string() }, "o=x");
    assert_eq!(add.attributes[0], ("cn".to_string(), vec![]));
    assert_eq!(dn_for("5", "o=x").as_str(), "telephoneNumber=5,o=x");
}
