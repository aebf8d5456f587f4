use jhapi::errors::APIError;
use jhapi::permissions::{rights_holder_check, granted_or_admin, permission_granted, permissions_from_names, PermissionKind, Permissions};
use jhapi::users::{
    apply_edit, creation_allowed, deletion_allowed, existing_user, user_list_for, found_user, plan_edit, user_deletion_plan,
    user_from_rows, EditUserParams, User,
};

const KINDS: [PermissionKind; 9] = [
    PermissionKind::Users,
    PermissionKind::Permissions,
    PermissionKind::Query,
    PermissionKind::Images,
    PermissionKind::Cost,
    PermissionKind::Admin,
    PermissionKind::Stock,
    PermissionKind::Reports,
    PermissionKind::Stores,
];

fn user(name: &str) -> User {
    User {
        username: name.to_string(),
        fullname: Some("Old Name".to_string()),
        email: Some("old@jh.com.jo".to_string()),
        login_duration: Some(8),
    }
}

#[test]
fn kind_names_round_trip() {
    let names: Vec<String> = KINDS.iter().map(|k| k.name()).collect();
    assert_eq!(
        names,
        vec!["users", "permissions", "query", "images", "cost", "admin", "stock", "reports", "stores"]
    );
    for k in KINDS.iter() {
        assert_eq!(PermissionKind::from_name(&k.name()), Some(*k));
    }
    assert_eq!(PermissionKind::from_name("root"), None);
    assert_eq!(PermissionKind::from_name("Admin"), None);
}

#[test]
fn new_permissions_grant_nothing() {
    let p = Permissions::new();
    for k in KINDS.iter() {
        assert!(!p.grants(*k));
    }
    assert!(p.granted_names().is_empty());
}

#[test]
fn grant_adds_one_right() {
    let mut p = Permissions::new();
    p.grant(PermissionKind::Cost);
    p.grant(PermissionKind::Stores);
    for k in KINDS.iter() {
        assert_eq!(p.grants(*k), *k == PermissionKind::Cost || *k == PermissionKind::Stores);
    }
    assert_eq!(p.granted_names(), vec!["cost", "stores"]);
}

#[test]
fn names_to_permissions() {
    let names = vec!["admin".to_string(), "bogus".to_string(), "query".to_string(), "admin".to_string()];
    let p = permissions_from_names(&names);
    assert!(p.admin && p.query);
    assert!(!p.users && !p.permissions && !p.images && !p.cost && !p.stock && !p.reports && !p.stores);
}

#[test]
fn stored_permissions_read_back() {
    let mut p = Permissions::new();
    p.grant(PermissionKind::Users);
    p.grant(PermissionKind::Images);
    p.grant(PermissionKind::Reports);
    let stored = p.granted_names();
    assert_eq!(stored, vec!["users", "images", "reports"]);
    assert_eq!(permissions_from_names(&stored), p);
}

#[test]
fn failed_lookup_grants_nothing() {
    let mut p = Permissions::new();
    p.grant(PermissionKind::Admin);
    assert!(permission_granted(&Ok(p), PermissionKind::Admin));
    assert!(!permission_granted(&Ok(p), PermissionKind::Users));
    assert!(!permission_granted(&Err(APIError::DBError), PermissionKind::Admin));
    assert!(granted_or_admin(&Ok(p), PermissionKind::Stores));
    let mut q = Permissions::new();
    q.grant(PermissionKind::Stores);
    assert!(granted_or_admin(&Ok(q), PermissionKind::Stores));
    assert!(!granted_or_admin(&Ok(q), PermissionKind::Users));
    assert!(!granted_or_admin(&Err(APIError::DBError), PermissionKind::Stores));
}

#[test]
fn edit_changes_named_fields() {
    let u = user("sami");
    let params = EditUserParams {
        p_password: None,
        p_fullname: Some("New Name".to_string()),
        p_email: None,
        p_loginduration: Some(12),
    };
    let v = apply_edit(&u, &params);
    assert_eq!(v.username, "sami");
    assert_eq!(v.fullname.as_deref(), Some("New Name"));
    assert_eq!(v.email.as_deref(), Some("old@jh.com.jo"));
    assert_eq!(v.login_duration, Some(12));
    let again = apply_edit(&v, &params);
    assert_eq!(again.fullname, v.fullname);
    assert_eq!(again.login_duration, v.login_duration);
}

#[test]
fn empty_edit_is_identity() {
    let u = user("sami");
    let params = EditUserParams { p_password: None, p_fullname: None, p_email: None, p_loginduration: None };
    assert!(params.is_empty());
    let v = apply_edit(&u, &params);
    assert_eq!(v.username, u.username);
    assert_eq!(v.fullname, u.fullname);
    assert_eq!(v.email, u.email);
    assert_eq!(v.login_duration, u.login_duration);
}

#[test]
fn edit_plan_outcomes() {
    let params = EditUserParams {
        p_password: Some("secret".to_string()),
        p_fullname: None,
        p_email: Some("new@jh.com.jo".to_string()),
        p_loginduration: None,
    };
    assert!(!params.is_empty());
    assert!(matches!(plan_edit(Err(APIError::DBError), &params, true), Err(APIError::DBError)));
    assert!(matches!(plan_edit(Err(APIError::DataNotFound), &params, true), Err(APIError::DBError)));
    assert!(matches!(plan_edit(Ok(User::new()), &params, true), Err(APIError::DataNotFound)));
    match plan_edit(Ok(user("sami")), &params, true) {
        Ok((v, pw)) => {
            assert_eq!(v.email.as_deref(), Some("new@jh.com.jo"));
            assert_eq!(pw.as_deref(), Some("secret"));
        }
        Err(_) => panic!("the edit should go on"),
    }
    match plan_edit(Ok(user("sami")), &params, false) {
        Ok((_, pw)) => assert!(pw.is_none()),
        Err(_) => panic!("the edit should go on"),
    }
}

#[test]
fn lookups_and_checks() {
    assert!(User::new().is_empty());
    assert!(matches!(found_user(User::new()), Err(APIError::DataNotFound)));
    assert_eq!(found_user(user("a")).unwrap().username, "a");
    assert!(matches!(user_from_rows(vec![]), Err(APIError::DataNotFound)));
    assert_eq!(user_from_rows(vec![user("first"), user("last")]).unwrap().username, "last");
    assert!(matches!(user_from_rows(vec![user("first"), User::new()]), Err(APIError::DataNotFound)));
    assert!(matches!(creation_allowed(Ok(true)), Err(APIError::DataExists)));
    assert!(creation_allowed(Ok(false)).is_ok());
    assert!(matches!(creation_allowed(Err(APIError::IOError)), Err(APIError::DBError)));
    assert!(deletion_allowed(Ok(true)).is_ok());
    assert!(matches!(deletion_allowed(Ok(false)), Err(APIError::DataNotFound)));
    assert!(matches!(deletion_allowed(Err(APIError::IOError)), Err(APIError::DBError)));
}

#[test]
fn deletion_order_and_key() {
    let (stmts, key) = user_deletion_plan("Sami.K");
    assert_eq!(stmts, vec!["delete_user_permissions", "delete_user_stores", "delete_user"]);
    assert_eq!(key, "sami.k");
}

#[test]
fn existence_and_listing_checks() {
    assert!(rights_holder_check(Ok(true)).is_ok());
    assert!(matches!(rights_holder_check(Ok(false)), Err(APIError::DataNotFound)));
    assert!(matches!(rights_holder_check(Err(APIError::DBError)), Err(APIError::DataNotFound)));
    assert!(existing_user(Ok(true)).is_ok());
    assert!(matches!(existing_user(Ok(false)), Err(APIError::DataNotFound)));
    assert!(matches!(existing_user(Err(APIError::IOError)), Err(APIError::DBError)));
    assert!(user_list_for(false, Ok(vec![user("a")])).unwrap().is_empty());
    assert_eq!(user_list_for(true, Ok(vec![user("a")])).unwrap().len(), 1);
    assert!(matches!(user_list_for(true, Err(APIError::DBError)), Err(APIError::DBError)));
}
