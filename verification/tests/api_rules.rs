use lemmy_federation::api::{
    associate, BanIdAction,
    check_registration_application, is_listed, modlog_filter, needs_application, process_cookie,
    search_plan, validate_token, CookieDecision, ModlogActionFlag, RegistrationError,
    RegistrationMode, SearchPlan, SearchType, TokenAction, TokenState, MODLOG_ALL,
};

const NOTHING: SearchPlan = SearchPlan {
    posts: false,
    posts_by_url: false,
    comments: false,
    communities: false,
    users: false,
};

#[test]
fn search_fills_the_lists_of_its_type() {
    for narrowed in [false, true] {
        assert_eq!(search_plan(SearchType::Posts, narrowed), SearchPlan { posts: true, ..NOTHING });
        assert_eq!(search_plan(SearchType::Comments, narrowed), SearchPlan { comments: true, ..NOTHING });
        assert_eq!(search_plan(SearchType::Communities, narrowed), SearchPlan { communities: true, ..NOTHING });
        assert_eq!(search_plan(SearchType::Users, narrowed), SearchPlan { users: true, ..NOTHING });
        assert_eq!(search_plan(SearchType::Url, narrowed), SearchPlan { posts_by_url: true, ..NOTHING });
    }
    assert_eq!(
        search_plan(SearchType::All, false),
        SearchPlan { posts: true, comments: true, communities: true, users: true, posts_by_url: false }
    );
    assert_eq!(
        search_plan(SearchType::All, true),
        SearchPlan { posts: true, comments: true, ..NOTHING }
    );
}

#[test]
fn modlog_filters() {
    assert_eq!(modlog_filter(None).unwrap(), MODLOG_ALL);
    assert_eq!(modlog_filter(Some(0)).unwrap(), 0);
    assert_eq!(modlog_filter(Some(0b1_0000_0101)).unwrap(), 0b1_0000_0101);
    assert_eq!(modlog_filter(Some(0x200)).unwrap_err().message, "malformed-flags");
    assert_eq!(modlog_filter(Some(0xffff)).unwrap_err().message, "malformed-flags");
    assert_eq!(ModlogActionFlag::RemovePost.bit(), 1);
    assert_eq!(ModlogActionFlag::RemoveCommunity.bit(), 64);
    assert_eq!(ModlogActionFlag::AddMod.bit(), 256);
}

#[test]
fn modlog_kinds_listed() {
    let all = MODLOG_ALL;
    assert!(is_listed(ModlogActionFlag::RemovePost, all, Some(3), Some(4)));
    assert!(!is_listed(ModlogActionFlag::RemovePost, 0b10, None, None));
    assert!(is_listed(ModlogActionFlag::LockPost, 0b10, None, None));
    assert!(is_listed(ModlogActionFlag::RemoveCommunity, all, None, None));
    assert!(!is_listed(ModlogActionFlag::RemoveCommunity, all, Some(3), None));
    assert!(!is_listed(ModlogActionFlag::RemoveCommunity, all, None, Some(4)));
    assert!(is_listed(ModlogActionFlag::BanFromSite, all, None, Some(4)));
    assert!(!is_listed(ModlogActionFlag::BanFromSite, all, Some(3), None));
    assert!(is_listed(ModlogActionFlag::AddMod, all, None, Some(4)));
    assert!(!is_listed(ModlogActionFlag::AddMod, all, Some(3), None));
    assert!(!is_listed(ModlogActionFlag::AddMod, 0xff, None, None));
}

#[test]
fn registration_applications() {
    assert!(needs_application(RegistrationMode::RequireApplication, false, false));
    assert!(needs_application(RegistrationMode::Closed, false, false));
    assert!(!needs_application(RegistrationMode::Open, false, false));
    assert!(!needs_application(RegistrationMode::Closed, true, false));
    assert!(!needs_application(RegistrationMode::Closed, false, true));
    assert_eq!(check_registration_application(RegistrationMode::Open, false, false, None), Ok(()));
    assert_eq!(
        check_registration_application(RegistrationMode::RequireApplication, true, false, None),
        Ok(())
    );
    assert_eq!(
        check_registration_application(RegistrationMode::RequireApplication, false, false, None),
        Err(RegistrationError::CouldntFindRegistrationApplication)
    );
    assert_eq!(
        check_registration_application(RegistrationMode::Closed, false, false, Some(true)),
        Err(RegistrationError::RegistrationDenied)
    );
    assert_eq!(
        check_registration_application(RegistrationMode::Closed, false, false, Some(false)),
        Err(RegistrationError::RegistrationApplicationIsPending)
    );
}

#[test]
fn device_cookies() {
    let known = vec!["one".to_string(), "two".to_string()];
    assert!(matches!(process_cookie(&"x".to_string(), &vec![], &None), CookieDecision::Create));
    match process_cookie(&"two".to_string(), &known, &Some("other".to_string())) {
        CookieDecision::Use(c) => assert_eq!(c, "two"),
        other => panic!("unexpected {:?}", other),
    }
    match process_cookie(&"x".to_string(), &known, &None) {
        CookieDecision::Use(c) => assert_eq!(c, "one"),
        other => panic!("unexpected {:?}", other),
    }
    match process_cookie(&"x".to_string(), &known, &Some("other".to_string())) {
        CookieDecision::Associate(c) => assert_eq!(c, "other"),
        other => panic!("unexpected {:?}", other),
    }
    match process_cookie(&"x".to_string(), &vec![], &Some("other".to_string())) {
        CookieDecision::Associate(c) => assert_eq!(c, "other"),
        other => panic!("unexpected {:?}", other),
    }
}

#[test]
fn sign_in_tokens() {
    let token = |is_revoked, expires_at| Some(TokenState { is_revoked, expires_at });
    assert_eq!(validate_token(None, 0, 10).unwrap_err().message, "not_logged_in");
    assert_eq!(validate_token(token(true, 1_000_000), 0, 10).unwrap_err().message, "not_logged_in");
    assert_eq!(validate_token(token(false, 1000), 0, 10).unwrap(), TokenAction::Keep);
    assert_eq!(validate_token(token(false, 600), 0, 10).unwrap(), TokenAction::Keep);
    assert_eq!(validate_token(token(false, 599), 0, 10).unwrap(), TokenAction::Renew);
    assert_eq!(validate_token(token(false, 599), 100, 10).unwrap(), TokenAction::Renew);
    assert_eq!(validate_token(token(false, i64::MAX), i64::MAX, i32::MAX).unwrap(), TokenAction::Renew);
}

#[test]
fn ban_ids() {
    assert_eq!(associate(None, 7, None), BanIdAction::SimpleAssociate(7));
    assert_eq!(associate(None, 7, Some(3)), BanIdAction::SimpleAssociate(3));
    assert_eq!(associate(Some(7), 7, None), BanIdAction::Keep);
    assert_eq!(associate(Some(7), 7, Some(3)), BanIdAction::Keep);
    assert_eq!(associate(Some(5), 7, None), BanIdAction::OverwritingAssociate);
    assert_eq!(associate(Some(5), 7, Some(3)), BanIdAction::OverwritingAssociate);
    assert_eq!(associate(Some(5), 7, Some(5)), BanIdAction::Keep);
}
