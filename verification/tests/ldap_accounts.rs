use jhapi::errors::APIError;
use jhapi::ldap::{
    account_control_value, attr_value_present, creation_answer, dn_of_entry, lookup_attr, removal_answer, mail_domain, mailbox_name, mailbox_reply_data, mailbox_request,
    new_user_attributes, new_user_dn, principal_filter, reply_text, unicode_pwd_value, utf16_le_bytes,
    AccountCreation, CreationAction, CreationEvent, CreationStage, UserAccount, UserParams, NEW_ACCOUNT_CONTROL,
};

fn params(mailbox: Option<bool>) -> UserParams {
    UserParams {
        cn: "Sami Khalil".to_string(),
        givenName: "Sami".to_string(),
        sn: "Khalil".to_string(),
        displayName: "S. Khalil".to_string(),
        userPrincipalName: "sami@jh.com.jo".to_string(),
        sAMAccountName: "sami".to_string(),
        mail: "sami@jh.com.jo".to_string(),
        password: "Pa55word!".to_string(),
        create_cpanel_account: mailbox,
    }
}

fn attrs() -> Vec<(String, Vec<String>)> {
    vec![
        ("cn".to_string(), vec!["Sami Khalil".to_string()]),
        ("memberOf".to_string(), vec!["g1".to_string(), "g2".to_string()]),
        ("cn".to_string(), vec!["ignored".to_string()]),
    ]
}

#[test]
fn names_and_filters() {
    assert_eq!(new_user_dn("Sami Khalil", "OU=Staff,DC=jh,DC=local"), "CN=Sami Khalil,OU=Staff,DC=jh,DC=local");
    assert_eq!(
        principal_filter("sami@jh.com.jo"),
        "(&(objectCategory=person)(objectClass=user)(userPrincipalName=sami@jh.com.jo))"
    );
    assert_eq!(account_control_value(NEW_ACCOUNT_CONTROL), "66048");
    assert_eq!(mail_domain(), "jh.com.jo");
}

#[test]
fn utf16_little_endian() {
    let expected: Vec<u8> = "aé€😀".encode_utf16().flat_map(|u| u.to_le_bytes()).collect();
    assert_eq!(utf16_le_bytes("aé€😀"), expected);
    assert_eq!(utf16_le_bytes("A"), vec![0x41, 0x00]);
    assert_eq!(utf16_le_bytes("😀"), vec![0x3d, 0xd8, 0x00, 0xde]);
}

#[test]
fn password_value_is_quoted_utf16() {
    let v = unicode_pwd_value("ab");
    assert_eq!(v, vec![0x22, 0, 0x61, 0, 0x62, 0, 0x22, 0]);
    let expected: Vec<u8> = "\"Pä55\"".encode_utf16().flat_map(|u| u.to_le_bytes()).collect();
    assert_eq!(unicode_pwd_value("Pä55"), expected);
}

#[test]
fn mailboxes() {
    assert_eq!(mailbox_name("sami@jh.com.jo"), "sami");
    assert_eq!(mailbox_name("no-at-sign"), "no-at-sign");
    assert_eq!(mailbox_name("@x"), "");
    assert_eq!(mailbox_name("a@b@c"), "a");
    assert_eq!(
        mailbox_request("https://mail.example:2083", "sami", "pw", "jh.com.jo"),
        "https://mail.example:2083/execute/Email/add_pop?email=sami&password=pw&domain=jh.com.jo&quota=2048"
    );
}

#[test]
fn mail_server_replies() {
    assert_eq!(mailbox_reply_data("{\"data\":\"created\"}").as_deref(), Some("created"));
    assert_eq!(mailbox_reply_data("{\"data\":null}").as_deref(), Some(""));
    assert_eq!(mailbox_reply_data("{\"other\":1}").as_deref(), Some(""));
    assert_eq!(mailbox_reply_data("not json"), None);
    assert_eq!(reply_text(None), "");
    assert_eq!(reply_text(Some("x".to_string())), "x");
}

#[test]
fn new_account_attributes() {
    let a = new_user_attributes(&params(None));
    let flat: Vec<(String, Vec<String>)> = a;
    assert_eq!(flat.len(), 8);
    assert_eq!(flat[0].0, "objectClass");
    assert_eq!(flat[0].1, vec!["top", "person", "organizationalPerson", "user"]);
    assert_eq!(flat[4], ("displayName".to_string(), vec!["Sami".to_string()]));
    assert_eq!(flat[5], ("userPrincipalName".to_string(), vec!["sami@jh.com.jo".to_string()]));
    assert_eq!(flat[7], ("mail".to_string(), vec!["sami@jh.com.jo".to_string()]));
}

#[test]
fn accounts_from_attributes() {
    assert_eq!(lookup_attr(&attrs(), "cn"), Some(vec!["Sami Khalil".to_string()]));
    assert_eq!(lookup_attr(&attrs(), "sn"), None);
    let acct = UserAccount::from_attributes(&attrs());
    assert_eq!(acct.cn, Some(vec!["Sami Khalil".to_string()]));
    assert_eq!(acct.memberOf, Some(vec!["g1".to_string(), "g2".to_string()]));
    assert_eq!(acct.sn, None);
    let empty = UserAccount::default();
    assert!(empty.cn.is_none() && empty.userPrincipalName.is_none());
    assert!(empty.distinguishedName.is_none() && empty.dSCorePropagationData.is_none());
}

#[test]
fn creation_without_mailbox() {
    let (mut c, first) = AccountCreation::start(params(Some(false)), "DC=jh".to_string(), String::new(), String::new());
    match first {
        CreationAction::LookUpPrincipal { filter } => assert!(filter.ends_with("(userPrincipalName=sami@jh.com.jo))")),
        other => panic!("unexpected {:?}", other),
    }
    match c.advance(CreationEvent::PrincipalLookedUp { found: false }) {
        CreationAction::AddAccount { dn, attributes } => {
            assert_eq!(dn, "CN=Sami Khalil,DC=jh");
            assert_eq!(attributes.len(), 8);
        }
        other => panic!("unexpected {:?}", other),
    }
    match c.advance(CreationEvent::Added { ok: true }) {
        CreationAction::SetPassword { dn, password } => {
            assert_eq!(dn, "CN=Sami Khalil,DC=jh");
            assert_eq!(password, unicode_pwd_value("Pa55word!"));
        }
        other => panic!("unexpected {:?}", other),
    }
    match c.advance(CreationEvent::PasswordSet) {
        CreationAction::SetAccountControl { value, .. } => assert_eq!(value, "66048"),
        other => panic!("unexpected {:?}", other),
    }
    match c.advance(CreationEvent::ControlSet) {
        CreationAction::FetchAccount { dn } => assert_eq!(dn, "CN=Sami Khalil,DC=jh"),
        other => panic!("unexpected {:?}", other),
    }
    match c.advance(CreationEvent::Fetched(None)) {
        CreationAction::Finish(Err(e)) => assert_eq!(e, APIError::DataNotFound),
        other => panic!("unexpected {:?}", other),
    }
    assert_eq!(c.stage, CreationStage::Finished);
}

#[test]
fn creation_with_mailbox() {
    let (mut c, _) = AccountCreation::start(
        params(Some(true)),
        "DC=jh".to_string(),
        "https://mail.example".to_string(),
        "mailpw".to_string(),
    );
    c.advance(CreationEvent::PrincipalLookedUp { found: false });
    c.advance(CreationEvent::Added { ok: true });
    c.advance(CreationEvent::PasswordSet);
    match c.advance(CreationEvent::ControlSet) {
        CreationAction::AddMailbox { url } => assert_eq!(
            url,
            "https://mail.example/execute/Email/add_pop?email=sami&password=mailpw&domain=jh.com.jo&quota=2048"
        ),
        other => panic!("unexpected {:?}", other),
    }
    assert_eq!(c.stage, CreationStage::AddingMailbox);
    match c.advance(CreationEvent::MailboxAdded) {
        CreationAction::FetchAccount { .. } => {}
        other => panic!("unexpected {:?}", other),
    }
    match c.advance(CreationEvent::Fetched(Some(UserAccount::from_attributes(&attrs())))) {
        CreationAction::Finish(Ok(acct)) => assert_eq!(acct.cn, Some(vec!["Sami Khalil".to_string()])),
        other => panic!("unexpected {:?}", other),
    }
}

#[test]
fn creation_refusals() {
    let (mut c, _) = AccountCreation::start(params(None), "DC=jh".to_string(), String::new(), String::new());
    match c.advance(CreationEvent::PrincipalLookedUp { found: true }) {
        CreationAction::Finish(Err(e)) => assert_eq!(e, APIError::DataExists),
        other => panic!("unexpected {:?}", other),
    }
    let (mut d, _) = AccountCreation::start(params(None), "DC=jh".to_string(), String::new(), String::new());
    d.advance(CreationEvent::PrincipalLookedUp { found: false });
    match d.advance(CreationEvent::Added { ok: false }) {
        CreationAction::Finish(Err(e)) => assert_eq!(e, APIError::InternalServerError),
        other => panic!("unexpected {:?}", other),
    }
    assert_eq!(d.stage, CreationStage::Finished);
}

#[test]
fn distinguished_names_of_entries() {
    let entry = vec![
        ("cn".to_string(), vec!["x".to_string()]),
        ("distinguishedName".to_string(), vec!["CN=x,DC=jh".to_string(), "ignored".to_string()]),
    ];
    assert!(attr_value_present(&entry, "distinguishedName"));
    assert_eq!(dn_of_entry(&entry), "CN=x,DC=jh");
    let empty = vec![("distinguishedName".to_string(), vec![])];
    assert!(!attr_value_present(&empty, "distinguishedName"));
    assert!(!attr_value_present(&entry, "mail"));
}

#[test]
fn directory_answers() {
    assert_eq!(removal_answer(false, None), (404, "User Not Found"));
    assert_eq!(removal_answer(true, None), (500, "Error Deleting User"));
    assert_eq!(removal_answer(true, Some(false)), (500, "Error Deleting User"));
    assert_eq!(removal_answer(true, Some(true)), (200, "User Deleted"));
    assert_eq!(creation_answer(true), (201, "User Created"));
    assert_eq!(creation_answer(false), (422, "Couldn't Create User"));
}

#[test]
fn creation_expects_matching_answers() {
    let (c, _) = AccountCreation::start(params(None), "DC=jh".to_string(), String::new(), String::new());
    assert!(c.expects(&CreationEvent::PrincipalLookedUp { found: false }));
    assert!(!c.expects(&CreationEvent::Added { ok: true }));
    assert!(!c.expects(&CreationEvent::Fetched(None)));
}
